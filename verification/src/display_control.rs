//! Naming the displays of one enumeration pass, and deciding for one
//! display whether its input has to be written.

use vstd::prelude::*;

use crate::input_source::InputSource;
use crate::text::{
    chars_of, decimal, lemma_decimal_digits, lemma_decimal_injective, push_all, push_decimal,
    push_str, same_chars, string_of, texts_of,
};

verus! {

/// The VCP feature code of input select.
pub const INPUT_SELECT: u8 = 0x60;

/// How long to wait before displays are listed a second time, in
/// milliseconds.
pub const RETRY_DELAY_MS: u64 = 3000;

/// The systems that describe their displays differently.
#[derive(Clone, Copy, Debug, PartialEq, Eq, Structural)]
pub enum Platform {
    Linux,
    Macos,
    Windows,
}

/// What the system tells about one display.
#[derive(Debug)]
pub struct DisplayInfo {
    pub id: String,
    pub manufacturer_id: Option<String>,
    pub model_name: Option<String>,
    pub serial_number: Option<String>,
}

/// The field as a list: its text if it is there, nothing if not.
pub open spec fn present(field: Option<String>) -> Seq<Seq<char>> {
    match field {
        Some(text) => seq![text@],
        None => Seq::empty(),
    }
}

/// The parts in order, with one space between neighbours.
pub open spec fn joined(parts: Seq<Seq<char>>) -> Seq<char>
    decreases parts.len(),
{
    if parts.len() == 0 {
        Seq::empty()
    } else if parts.len() == 1 {
        parts[0]
    } else {
        joined(parts.drop_last()) + seq![' '] + parts.last()
    }
}

/// What identifies a display before any numbering. On Linux: manufacturer,
/// model and serial number, as far as they are known, with spaces between
/// them. Elsewhere: the identifier the system gave.
pub open spec fn base_identity(info: DisplayInfo, platform: Platform) -> Seq<char> {
    match platform {
        Platform::Linux => joined(
            present(info.manufacturer_id) + present(info.model_name) + present(info.serial_number),
        ),
        _ => info.id@,
    }
}

/// The name of a display: its base identity in single quotes, with ` #` and
/// the number before the closing quote if it is numbered.
pub open spec fn name_of(base: Seq<char>, index: Option<nat>) -> Seq<char> {
    match index {
        Some(n) => seq!['\''] + base + seq![' ', '#'] + decimal(n) + seq!['\''],
        None => seq!['\''] + base + seq!['\''],
    }
}

/// The base identities of the displays, in order.
pub open spec fn base_identities(displays: Seq<DisplayInfo>, platform: Platform) -> Seq<
    Seq<char>,
> {
    Seq::new(displays.len(), |i: int| base_identity(displays[i], platform))
}

/// Whether no two of the displays have the same base identity.
pub open spec fn names_unique(displays: Seq<DisplayInfo>, platform: Platform) -> bool {
    base_identities(displays, platform).no_duplicates()
}

/// The identities of the displays of one pass, in order. If no two displays
/// share a base identity, each is named by its base identity alone. If any
/// two do, every display, not just those two, is numbered from one in the
/// order of the pass.
pub open spec fn identities(displays: Seq<DisplayInfo>, platform: Platform) -> Seq<Seq<char>> {
    Seq::new(
        displays.len(),
        |i: int|
            name_of(
                base_identity(displays[i], platform),
                if names_unique(displays, platform) {
                    None
                } else {
                    Some((i + 1) as nat)
                },
            ),
    )
}

/// The base identity of a display.
pub fn base_identity_of(display: &DisplayInfo, platform: Platform) -> (base: Vec<char>)
    ensures
        base@ == base_identity(*display, platform),
{
    match platform {
        Platform::Linux => {
            let mut out: Vec<char> = Vec::new();
            let mut started = false;
            let ghost mut parts: Seq<Seq<char>> = Seq::empty();
            match &display.manufacturer_id {
                Some(text) => {
                    push_str(&mut out, text.as_str());
                    started = true;
                    proof {
                        parts = parts.push(text@);
                    }
                },
                None => {},
            }
            assert(out@ =~= joined(parts));
            match &display.model_name {
                Some(text) => {
                    let ghost before = parts;
                    if started {
                        out.push(' ');
                    }
                    push_str(&mut out, text.as_str());
                    started = true;
                    proof {
                        parts = parts.push(text@);
                        assert(parts.drop_last() =~= before);
                        assert(out@ =~= joined(parts));
                    }
                },
                None => {},
            }
            match &display.serial_number {
                Some(text) => {
                    let ghost before = parts;
                    if started {
                        out.push(' ');
                    }
                    push_str(&mut out, text.as_str());
                    proof {
                        parts = parts.push(text@);
                        assert(parts.drop_last() =~= before);
                    }
                },
                None => {},
            }
            assert(parts =~= present(display.manufacturer_id) + present(display.model_name)
                + present(display.serial_number));
            out
        },
        _ => chars_of(display.id.as_str()),
    }
}

/// The name of a display: its base identity in single quotes. With an
/// index, ` #` and the index stand before the closing quote.
pub fn display_name(display: &DisplayInfo, index: Option<usize>, platform: Platform) -> (name:
    String)
    ensures
        name@ == name_of(
            base_identity(*display, platform),
            match index {
                Some(n) => Some(n as nat),
                None => None,
            },
        ),
{
    let base = base_identity_of(display, platform);
    let mut out: Vec<char> = Vec::new();
    out.push('\'');
    push_all(&mut out, &base);
    match index {
        Some(n) => {
            out.push(' ');
            out.push('#');
            push_decimal(&mut out, n as u64);
            out.push('\'');
        },
        None => {
            out.push('\'');
        },
    }
    string_of(&out)
}

/// Whether no two of the displays have the same base identity, and so the
/// same name.
pub fn are_display_names_unique(displays: &Vec<DisplayInfo>, platform: Platform) -> (unique: bool)
    ensures
        unique == names_unique(displays@, platform),
{
    let mut bases: Vec<Vec<char>> = Vec::new();
    let mut i: usize = 0;
    while i < displays.len()
        invariant
            i <= displays.len(),
            bases.len() == i,
            forall|k: int|
                0 <= k < i ==> (#[trigger] bases[k])@ == base_identity(displays[k], platform),
        decreases displays.len() - i,
    {
        bases.push(base_identity_of(&displays[i], platform));
        i += 1;
    }
    let ghost all = base_identities(displays@, platform);
    let mut a: usize = 0;
    while a < bases.len()
        invariant
            a <= bases.len(),
            bases.len() == displays.len(),
            all == base_identities(displays@, platform),
            forall|k: int| 0 <= k < bases.len() ==> (#[trigger] bases[k])@ == all[k],
            forall|x: int, y: int| 0 <= x < a && x < y < bases.len() ==> all[x] != all[y],
        decreases bases.len() - a,
    {
        let mut b: usize = a + 1;
        while b < bases.len()
            invariant
                a < b <= bases.len(),
                bases.len() == displays.len(),
                all == base_identities(displays@, platform),
                forall|k: int| 0 <= k < bases.len() ==> (#[trigger] bases[k])@ == all[k],
                forall|y: int| a < y < b ==> all[a as int] != all[y],
            decreases bases.len() - b,
        {
            if same_chars(&bases[a], &bases[b]) {
                return false;
            }
            b += 1;
        }
        a += 1;
    }
    assert forall|x: int, y: int| 0 <= x < all.len() && 0 <= y < all.len() && x != y implies all[x]
        != all[y] by {
        if x > y {
            assert(all[y] != all[x]);
        }
    }
    true
}

/// The identities of the displays of one pass, in order: plain names if no
/// two displays share one, names numbered from one for every display if
/// any two do.
pub fn identity_of(displays: &Vec<DisplayInfo>, platform: Platform) -> (names: Vec<String>)
    ensures
        texts_of(names@) == identities(displays@, platform),
{
    let unique = are_display_names_unique(displays, platform);
    let mut names: Vec<String> = Vec::new();
    let mut i: usize = 0;
    while i < displays.len()
        invariant
            i <= displays.len(),
            unique == names_unique(displays@, platform),
            texts_of(names@) == identities(displays@, platform).take(i as int),
        decreases displays.len() - i,
    {
        let index: Option<usize> = if unique {
            None
        } else {
            Some(i + 1)
        };
        let name = display_name(&displays[i], index, platform);
        let ghost before = texts_of(names@);
        names.push(name);
        assert(texts_of(names@) =~= before.push(name@));
        i += 1;
    }
    names
}

/// Where no two displays share a base identity, nothing is appended to any
/// name. Where any two do, every name ends in ` #`, the place of the display
/// in the pass, counted from one, and the closing quote: the first display
/// gets `#1`, the second `#2`.
pub proof fn lemma_identity_suffixes(displays: Seq<DisplayInfo>, platform: Platform, i: int)
    requires
        0 <= i < displays.len(),
    ensures
        names_unique(displays, platform) ==> identities(displays, platform)[i] == seq!['\'']
            + base_identity(displays[i], platform) + seq!['\''],
        !names_unique(displays, platform) ==> identities(displays, platform)[i] == seq!['\'']
            + base_identity(displays[i], platform) + seq![' ', '#'] + decimal((i + 1) as nat)
            + seq!['\''],
        decimal(1) == seq!['1'],
        decimal(2) == seq!['2'],
{
}

/// A name tells its base identity and its number.
proof fn lemma_name_injective(a: Seq<char>, m: Option<nat>, b: Seq<char>, n: Option<nat>)
    requires
        name_of(a, m) == name_of(b, n),
        (m is Some) == (n is Some),
    ensures
        a == b,
        m == n,
{
    let x = name_of(a, m);
    let y = name_of(b, n);
    match (m, n) {
        (None, None) => {
            assert(a =~= x.subrange(1, x.len() - 1));
        },
        (Some(m), Some(n)) => {
            let dm = decimal(m);
            let dn = decimal(n);
            lemma_decimal_digits(m);
            lemma_decimal_digits(n);
            let len = x.len() as int;
            // The hash sign stands just before the numeral, and no numeral
            // holds one: so the two numerals are equally long.
            assert(x[len - dm.len() - 2] == '#');
            assert(y[len - dn.len() - 2] == '#');
            assert(dm =~= x.subrange(len - dm.len() - 1, len - 1));
            assert(dn =~= y.subrange(len - dn.len() - 1, len - 1));
            lemma_decimal_injective(m, n);
            assert(a =~= x.subrange(1, 1 + a.len() as int));
        },
        _ => {},
    }
}

/// Within one pass no two displays have the same identity.
pub proof fn lemma_identities_distinct(displays: Seq<DisplayInfo>, platform: Platform)
    ensures
        identities(displays, platform).no_duplicates(),
{
    let ids = identities(displays, platform);
    let bases = base_identities(displays, platform);
    let unique = names_unique(displays, platform);
    assert forall|i: int, j: int| 0 <= i < ids.len() && 0 <= j < ids.len() && i != j implies ids[i]
        != ids[j] by {
        if ids[i] == ids[j] {
            if unique {
                lemma_name_injective(bases[i], None, bases[j], None);
            } else {
                lemma_name_injective(
                    bases[i],
                    Some((i + 1) as nat),
                    bases[j],
                    Some((j + 1) as nat),
                );
            }
        }
    }
}

/// The low byte of what a display answers when asked for its input select.
/// Displays differ in what they put in the high byte, so an answer also
/// counts as the input that its low byte names.
pub open spec fn current_input(raw: u16) -> u16 {
    raw & 0xff
}

/// Whether the input has to be written to a display that gave `reading`
/// when asked for its current input (`None`: it gave no answer). It need not
/// only if the display answered and already shows the input: its answer is
/// the value of the input, or the low byte of its answer is.
pub open spec fn write_needed(reading: Option<u16>, input: InputSource) -> bool {
    match reading {
        Some(raw) => raw != input.value_spec() && current_input(raw) != input.value_spec(),
        None => true,
    }
}

/// Decides what to write to a display that gave `reading` when asked for
/// its current input: the value of `input`, or nothing if the display
/// already shows it. A display that could not be read is written to.
pub fn try_switch_display(reading: Option<u16>, input: InputSource) -> (write: Option<u16>)
    ensures
        write == if write_needed(reading, input) {
            Some(input.value_spec())
        } else {
            None
        },
{
    match reading {
        Some(raw) => {
            if raw == input.value() || raw & 0xff == input.value() {
                None
            } else {
                Some(input.value())
            }
        },
        None => Some(input.value()),
    }
}

/// Two switches of one display to the same input write at most once. The
/// display is one that keeps its input: after a write it answers with what
/// was written, or with that in its low byte, and without a write it
/// answers as before. Then whatever the first switch read, the second finds
/// the input set and writes nothing.
pub proof fn lemma_second_switch_writes_nothing(
    input: InputSource,
    first_reading: Option<u16>,
    second_reading: u16,
)
    requires
        write_needed(first_reading, input) ==> second_reading == input.value_spec()
            || current_input(second_reading) == input.value_spec(),
        !write_needed(first_reading, input) ==> Some(second_reading) == first_reading,
    ensures
        !write_needed(Some(second_reading), input),
{
}

/// A display that answers with exactly the input it is to be switched to is
/// never written to, whatever the value of the input.
pub proof fn lemma_equal_reading_skips_write(input: InputSource)
    ensures
        !write_needed(Some(input.value_spec()), input),
{
}

/// What to do with a listing of displays.
#[derive(Clone, Copy, Debug, PartialEq, Eq, Structural)]
pub enum Listed {
    /// Displays were found: work with them.
    Use,
    /// None were found at the first listing: warn, wait this many
    /// milliseconds, and list again.
    RetryAfter(u64),
    /// None were found at the second listing either: give up.
    GiveUp,
}

/// Decides what to do with a listing that found `found` displays; `retried`
/// says whether it is the second listing. Displays that were found are
/// used. An empty first listing is tried again once, after the delay:
/// displays may not be ready right after a USB change. An empty second
/// listing is final.
pub fn displays(found: usize, retried: bool) -> (step: Listed)
    ensures
        found > 0 ==> step == Listed::Use,
        found == 0 && !retried ==> step == Listed::RetryAfter(RETRY_DELAY_MS),
        found == 0 && retried ==> step == Listed::GiveUp,
{
    if found > 0 {
        Listed::Use
    } else if !retried {
        Listed::RetryAfter(RETRY_DELAY_MS)
    } else {
        Listed::GiveUp
    }
}

/// The input that a display shows, under the identity of the display;
/// `source` is `None` for a display that gave no answer.
#[derive(Debug)]
pub struct CurrentSource {
    pub name: String,
    pub source: Option<InputSource>,
}

/// The input that stands for the answer of a display: the whole answer as
/// an input value, by name where it has one.
pub open spec fn source_of(readings: Seq<Option<u16>>, i: int) -> Option<InputSource> {
    if 0 <= i < readings.len() {
        match readings[i] {
            Some(raw) => Some(InputSource::Raw(raw).normalize_spec()),
            None => None,
        }
    } else {
        None
    }
}

/// Reports the current input of every display: `readings` holds what each
/// display answered when asked for its input, in the order of the listing,
/// `None` for one that gave no answer; a display without an entry counts as
/// one that gave no answer. Each display is reported under its identity
/// within the listing.
pub fn log_current_source(
    displays: &Vec<DisplayInfo>,
    readings: &Vec<Option<u16>>,
    platform: Platform,
) -> (report: Vec<CurrentSource>)
    ensures
        report.len() == displays.len(),
        forall|i: int|
            0 <= i < report.len() ==> (#[trigger] report[i]).name@ == identities(
                displays@,
                platform,
            )[i] && report[i].source == source_of(readings@, i),
{
    let names = identity_of(displays, platform);
    assert(texts_of(names@).len() == names.len());
    let mut report: Vec<CurrentSource> = Vec::new();
    let mut i: usize = 0;
    while i < names.len()
        invariant
            i <= names.len(),
            names.len() == displays.len(),
            report.len() == i,
            texts_of(names@) == identities(displays@, platform),
            forall|k: int|
                0 <= k < i ==> (#[trigger] report[k]).name@ == identities(displays@, platform)[k]
                    && report[k].source == source_of(readings@, k),
        decreases names.len() - i,
    {
        let name = names[i].clone();
        let source = if i < readings.len() {
            match readings[i] {
                Some(raw) => Some(InputSource::Raw(raw).normalize()),
                None => None,
            }
        } else {
            None
        };
        report.push(CurrentSource { name, source });
        i += 1;
    }
    report
}

} // verus!
