//! USB device identifiers and the callback through which device changes are
//! reported.

use vstd::prelude::*;

use crate::configuration::SwitchDirection;
use crate::text::{digit_char, hex4, lemma_digit_char_injective, push_hex4, string_of};

verus! {

/// The vendor and product numbers from a device descriptor.
#[derive(Clone, Copy, Debug, PartialEq, Eq, Structural)]
pub struct UsbIds {
    pub vendor_id: u16,
    pub product_id: u16,
}

/// The identifier of a device: vendor and product number, each as four
/// lower-case hexadecimal digits, with a colon between them.
pub open spec fn device_id_spec(ids: UsbIds) -> Seq<char> {
    hex4(ids.vendor_id) + seq![':'] + hex4(ids.product_id)
}

/// The identifier of the device with the given descriptor; `None` for a
/// device whose descriptor could not be read.
pub fn device_id(descriptor: &Option<UsbIds>) -> (id: Option<String>)
    ensures
        match *descriptor {
            Some(ids) => id matches Some(text) && text@ == device_id_spec(ids),
            None => id is None,
        },
{
    match descriptor {
        Some(ids) => {
            let mut out: Vec<char> = Vec::new();
            push_hex4(&mut out, ids.vendor_id);
            out.push(':');
            push_hex4(&mut out, ids.product_id);
            assert(out@ =~= device_id_spec(*ids));
            Some(string_of(&out))
        },
        None => None,
    }
}

/// Whether `c` is a hexadecimal digit in lower case.
pub open spec fn is_lower_hex_digit(c: char) -> bool {
    '0' <= c <= '9' || 'a' <= c <= 'f'
}

/// An identifier has nine characters: four hexadecimal digits in lower case,
/// a colon, and four such digits again.
pub proof fn lemma_device_id_shape(ids: UsbIds)
    ensures
        device_id_spec(ids).len() == 9,
        device_id_spec(ids)[4] == ':',
        forall|i: int|
            0 <= i < 9 && i != 4 ==> is_lower_hex_digit(#[trigger] device_id_spec(ids)[i]),
{
    let id = device_id_spec(ids);
    assert(forall|d: int| 0 <= d < 16 ==> is_lower_hex_digit(#[trigger] digit_char(d)));
    assert forall|i: int| 0 <= i < 9 && i != 4 implies is_lower_hex_digit(#[trigger] id[i]) by {
        if i < 4 {
            assert(id[i] == hex4(ids.vendor_id)[i]);
        } else {
            assert(id[i] == hex4(ids.product_id)[i - 5]);
        }
    }
}

/// Four hexadecimal digits determine the number they write.
proof fn lemma_hex4_injective(a: u16, b: u16)
    requires
        hex4(a) == hex4(b),
    ensures
        a == b,
{
    lemma_digit_char_injective(a as int / 4096, b as int / 4096);
    lemma_digit_char_injective(a as int / 256 % 16, b as int / 256 % 16);
    lemma_digit_char_injective(a as int / 16 % 16, b as int / 16 % 16);
    lemma_digit_char_injective(a as int % 16, b as int % 16);
    assert(hex4(a)[0] == hex4(b)[0] && hex4(a)[1] == hex4(b)[1] && hex4(a)[2] == hex4(b)[2]
        && hex4(a)[3] == hex4(b)[3]);
}

/// Devices have the same identifier exactly when they have the same vendor
/// and product numbers: an identifier stands for one kind of device.
pub proof fn lemma_device_id_injective(a: UsbIds, b: UsbIds)
    requires
        device_id_spec(a) == device_id_spec(b),
    ensures
        a == b,
{
    let ia = device_id_spec(a);
    let ib = device_id_spec(b);
    assert(hex4(a.vendor_id) =~= ia.subrange(0, 4));
    assert(hex4(b.vendor_id) =~= ib.subrange(0, 4));
    assert(hex4(a.product_id) =~= ia.subrange(5, 9));
    assert(hex4(b.product_id) =~= ib.subrange(5, 9));
    lemma_hex4_injective(a.vendor_id, b.vendor_id);
    lemma_hex4_injective(a.product_id, b.product_id);
}

/// What is told when a device arrives or leaves. An implementation answers
/// each report with the switch it asks for, if any; the answer depends on
/// the device identifier alone.
pub trait UsbCallback {
    /// The answer to the arrival of the device `device_id`.
    spec fn on_added(&self, device_id: Seq<char>) -> Option<SwitchDirection>;

    /// The answer to the departure of the device `device_id`.
    spec fn on_removed(&self, device_id: Seq<char>) -> Option<SwitchDirection>;

    /// Reports that the device `device_id` arrived.
    fn device_added(&self, device_id: &str) -> (answer: Option<SwitchDirection>)
        ensures
            answer == self.on_added(device_id@),
    ;

    /// Reports that the device `device_id` left.
    fn device_removed(&self, device_id: &str) -> (answer: Option<SwitchDirection>)
        ensures
            answer == self.on_removed(device_id@),
    ;
}

} // verus!
