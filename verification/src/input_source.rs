//! Monitor input sources: the known VCP input-select values by name, raw
//! sixteen-bit values, and the text forms of both.

use vstd::prelude::*;
use vstd::std_specs::cmp::PartialEqSpec;

use crate::text::{
    chars_of, hex, lowercase_of, parse_u16, push_hex, push_str, same_chars, string_of,
    to_lowercase, trim, trimmed, u16_of,
};

verus! {

/// An input with a name in the VCP input-select table.
#[derive(Clone, Copy, Debug, PartialEq, Eq, Structural)]
pub enum SymbolicInputSource {
    DisplayPort1,
    DisplayPort2,
    Hdmi1,
    Hdmi2,
    CompositeVideo1,
    CompositeVideo2,
    Dvi1,
    Dvi2,
    Vga1,
}

impl SymbolicInputSource {
    /// The VCP input-select value of this input.
    pub open spec fn value_spec(self) -> u16 {
        match self {
            SymbolicInputSource::DisplayPort1 => 0x0f,
            SymbolicInputSource::DisplayPort2 => 0x10,
            SymbolicInputSource::Hdmi1 => 0x11,
            SymbolicInputSource::Hdmi2 => 0x12,
            SymbolicInputSource::CompositeVideo1 => 0x05,
            SymbolicInputSource::CompositeVideo2 => 0x06,
            SymbolicInputSource::Dvi1 => 0x03,
            SymbolicInputSource::Dvi2 => 0x04,
            SymbolicInputSource::Vga1 => 0x01,
        }
    }

    /// The input whose VCP value is `v`, if there is one.
    pub open spec fn of_value(v: u16) -> Option<SymbolicInputSource> {
        if v == 0x0f {
            Some(SymbolicInputSource::DisplayPort1)
        } else if v == 0x10 {
            Some(SymbolicInputSource::DisplayPort2)
        } else if v == 0x11 {
            Some(SymbolicInputSource::Hdmi1)
        } else if v == 0x12 {
            Some(SymbolicInputSource::Hdmi2)
        } else if v == 0x05 {
            Some(SymbolicInputSource::CompositeVideo1)
        } else if v == 0x06 {
            Some(SymbolicInputSource::CompositeVideo2)
        } else if v == 0x03 {
            Some(SymbolicInputSource::Dvi1)
        } else if v == 0x04 {
            Some(SymbolicInputSource::Dvi2)
        } else if v == 0x01 {
            Some(SymbolicInputSource::Vga1)
        } else {
            None
        }
    }

    /// The name of this input, as it is shown.
    pub open spec fn name_spec(self) -> Seq<char> {
        match self {
            SymbolicInputSource::DisplayPort1 => "DisplayPort1"@,
            SymbolicInputSource::DisplayPort2 => "DisplayPort2"@,
            SymbolicInputSource::Hdmi1 => "Hdmi1"@,
            SymbolicInputSource::Hdmi2 => "Hdmi2"@,
            SymbolicInputSource::CompositeVideo1 => "CompositeVideo1"@,
            SymbolicInputSource::CompositeVideo2 => "CompositeVideo2"@,
            SymbolicInputSource::Dvi1 => "Dvi1"@,
            SymbolicInputSource::Dvi2 => "Dvi2"@,
            SymbolicInputSource::Vga1 => "Vga1"@,
        }
    }

    /// The input whose name, in lower case, is `lower`.
    pub open spec fn of_lowercase_name(lower: Seq<char>) -> Option<SymbolicInputSource> {
        if lower == "displayport1"@ {
            Some(SymbolicInputSource::DisplayPort1)
        } else if lower == "displayport2"@ {
            Some(SymbolicInputSource::DisplayPort2)
        } else if lower == "hdmi1"@ {
            Some(SymbolicInputSource::Hdmi1)
        } else if lower == "hdmi2"@ {
            Some(SymbolicInputSource::Hdmi2)
        } else if lower == "compositevideo1"@ {
            Some(SymbolicInputSource::CompositeVideo1)
        } else if lower == "compositevideo2"@ {
            Some(SymbolicInputSource::CompositeVideo2)
        } else if lower == "dvi1"@ {
            Some(SymbolicInputSource::Dvi1)
        } else if lower == "dvi2"@ {
            Some(SymbolicInputSource::Dvi2)
        } else if lower == "vga1"@ {
            Some(SymbolicInputSource::Vga1)
        } else {
            None
        }
    }

    /// The VCP input-select value of this input.
    pub fn value(self) -> (v: u16)
        ensures
            v == self.value_spec(),
    {
        match self {
            SymbolicInputSource::DisplayPort1 => 0x0f,
            SymbolicInputSource::DisplayPort2 => 0x10,
            SymbolicInputSource::Hdmi1 => 0x11,
            SymbolicInputSource::Hdmi2 => 0x12,
            SymbolicInputSource::CompositeVideo1 => 0x05,
            SymbolicInputSource::CompositeVideo2 => 0x06,
            SymbolicInputSource::Dvi1 => 0x03,
            SymbolicInputSource::Dvi2 => 0x04,
            SymbolicInputSource::Vga1 => 0x01,
        }
    }

    /// The input whose VCP value is `v`; `None` if the value has no name.
    pub fn from_value(v: u16) -> (found: Option<SymbolicInputSource>)
        ensures
            found == Self::of_value(v),
            found matches Some(sym) ==> sym.value_spec() == v,
            found is None ==> forall|sym: SymbolicInputSource| sym.value_spec() != v,
    {
        match v {
            0x0f => Some(SymbolicInputSource::DisplayPort1),
            0x10 => Some(SymbolicInputSource::DisplayPort2),
            0x11 => Some(SymbolicInputSource::Hdmi1),
            0x12 => Some(SymbolicInputSource::Hdmi2),
            0x05 => Some(SymbolicInputSource::CompositeVideo1),
            0x06 => Some(SymbolicInputSource::CompositeVideo2),
            0x03 => Some(SymbolicInputSource::Dvi1),
            0x04 => Some(SymbolicInputSource::Dvi2),
            0x01 => Some(SymbolicInputSource::Vga1),
            _ => None,
        }
    }

    /// The name of this input, as it is shown.
    pub fn name(self) -> (name: &'static str)
        ensures
            name@ == self.name_spec(),
    {
        match self {
            SymbolicInputSource::DisplayPort1 => "DisplayPort1",
            SymbolicInputSource::DisplayPort2 => "DisplayPort2",
            SymbolicInputSource::Hdmi1 => "Hdmi1",
            SymbolicInputSource::Hdmi2 => "Hdmi2",
            SymbolicInputSource::CompositeVideo1 => "CompositeVideo1",
            SymbolicInputSource::CompositeVideo2 => "CompositeVideo2",
            SymbolicInputSource::Dvi1 => "Dvi1",
            SymbolicInputSource::Dvi2 => "Dvi2",
            SymbolicInputSource::Vga1 => "Vga1",
        }
    }

    /// The input whose lower-case name is exactly `lower`.
    pub fn from_lowercase_name(lower: &str) -> (found: Option<SymbolicInputSource>)
        ensures
            found == Self::of_lowercase_name(lower@),
    {
        let chars = chars_of(lower);
        if same_chars(&chars, &chars_of("displayport1")) {
            Some(SymbolicInputSource::DisplayPort1)
        } else if same_chars(&chars, &chars_of("displayport2")) {
            Some(SymbolicInputSource::DisplayPort2)
        } else if same_chars(&chars, &chars_of("hdmi1")) {
            Some(SymbolicInputSource::Hdmi1)
        } else if same_chars(&chars, &chars_of("hdmi2")) {
            Some(SymbolicInputSource::Hdmi2)
        } else if same_chars(&chars, &chars_of("compositevideo1")) {
            Some(SymbolicInputSource::CompositeVideo1)
        } else if same_chars(&chars, &chars_of("compositevideo2")) {
            Some(SymbolicInputSource::CompositeVideo2)
        } else if same_chars(&chars, &chars_of("dvi1")) {
            Some(SymbolicInputSource::Dvi1)
        } else if same_chars(&chars, &chars_of("dvi2")) {
            Some(SymbolicInputSource::Dvi2)
        } else if same_chars(&chars, &chars_of("vga1")) {
            Some(SymbolicInputSource::Vga1)
        } else {
            None
        }
    }

    /// The input named `name`, whatever the case of its letters: the name is
    /// put in lower case and then looked up.
    pub fn from_name(name: &str) -> (found: Option<SymbolicInputSource>)
        ensures
            found == Self::of_lowercase_name(lowercase_of(name@)),
    {
        let lower = to_lowercase(name);
        Self::from_lowercase_name(lower.as_str())
    }
}

/// A monitor input: one of the named inputs, or a raw VCP value.
#[derive(Clone, Copy, Debug)]
pub enum InputSource {
    Raw(u16),
    Symbolic(SymbolicInputSource),
}

/// The text was neither a number that fits in sixteen bits nor written as
/// one.
#[derive(Clone, Copy, Debug, PartialEq, Eq, Structural)]
pub struct ParseIntError;

/// The text names no input source; `text` is what was read, trimmed and in
/// lower case.
#[derive(Debug)]
pub struct InvalidInputSource {
    pub text: String,
}

/// The number that `s` writes: hexadecimal after a leading `0x`, decimal
/// otherwise.
pub open spec fn int_of(s: Seq<char>) -> Option<u16> {
    if s.len() >= 2 && s[0] == '0' && s[1] == 'x' {
        u16_of(s.skip(2), 16)
    } else {
        u16_of(s, 10)
    }
}

/// Reads a sixteen-bit number: hexadecimal after a leading `0x`, decimal
/// otherwise. Succeeds exactly on the texts that write such a number.
pub fn parse_int(s: &str) -> (r: Result<u16, ParseIntError>)
    ensures
        r matches Ok(v) ==> int_of(s@) == Some(v),
        r is Err ==> int_of(s@) is None,
{
    let chars = chars_of(s);
    let parsed = if chars.len() >= 2 && chars[0] == '0' && chars[1] == 'x' {
        parse_u16(&chars, 2, 16)
    } else {
        assert(chars@.skip(0) =~= chars@);
        parse_u16(&chars, 0, 10)
    };
    match parsed {
        Some(v) => Ok(v),
        None => Err(ParseIntError),
    }
}

impl InputSource {
    /// The VCP input-select value.
    pub open spec fn value_spec(self) -> u16 {
        match self {
            InputSource::Symbolic(sym) => sym.value_spec(),
            InputSource::Raw(value) => value,
        }
    }

    /// The same input, by name where its value has one.
    pub open spec fn normalize_spec(self) -> InputSource {
        match self {
            InputSource::Symbolic(_) => self,
            InputSource::Raw(value) => match SymbolicInputSource::of_value(value) {
                Some(sym) => InputSource::Symbolic(sym),
                None => InputSource::Raw(value),
            },
        }
    }

    /// The input that the lower-case text `s` stands for: a number, or else
    /// a name.
    pub open spec fn of_lowercase_text(s: Seq<char>) -> Option<InputSource> {
        match int_of(s) {
            Some(v) => Some(InputSource::Raw(v).normalize_spec()),
            None => match SymbolicInputSource::of_lowercase_name(lowercase_of(s)) {
                Some(sym) => Some(InputSource::Symbolic(sym)),
                None => None,
            },
        }
    }

    /// How the input is shown: its name, or `Custom` for a raw value, and the
    /// value in hexadecimal.
    pub open spec fn text_spec(self) -> Seq<char> {
        match self {
            InputSource::Symbolic(sym) => sym.name_spec() + "(0x"@ + hex(sym.value_spec() as nat)
                + ")"@,
            InputSource::Raw(value) => "Custom(0x"@ + hex(value as nat) + ")"@,
        }
    }

    /// The VCP input-select value.
    pub fn value(&self) -> (v: u16)
        ensures
            v == self.value_spec(),
    {
        match self {
            InputSource::Symbolic(sym) => sym.value(),
            InputSource::Raw(value) => *value,
        }
    }

    /// Replaces a raw value that has a name by the named input. The value
    /// stays the same, and the result is raw only if the value has no name.
    pub fn normalize(self) -> (r: InputSource)
        ensures
            r == self.normalize_spec(),
            r.value_spec() == self.value_spec(),
            r is Raw ==> SymbolicInputSource::of_value(self.value_spec()) is None,
    {
        match self {
            InputSource::Symbolic(_) => self,
            InputSource::Raw(value) => match SymbolicInputSource::from_value(value) {
                Some(sym) => InputSource::Symbolic(sym),
                None => InputSource::Raw(value),
            },
        }
    }

    /// Reads an input source from text that is already trimmed and in lower
    /// case: a number as `parse_int` reads it, or else the name of an input.
    pub fn from_lowercase_text(s: &str) -> (r: Result<InputSource, InvalidInputSource>)
        ensures
            r matches Ok(input) ==> Self::of_lowercase_text(s@) == Some(input),
            r matches Err(e) ==> Self::of_lowercase_text(s@) is None && e.text@ == s@,
    {
        match parse_int(s) {
            Ok(v) => Ok(InputSource::Raw(v).normalize()),
            Err(_) => match SymbolicInputSource::from_name(s) {
                Some(sym) => Ok(InputSource::Symbolic(sym)),
                None => Err(InvalidInputSource { text: s.to_owned() }),
            },
        }
    }

    /// Reads an input source from text as a configuration gives it: white
    /// space around it is dropped, the rest is put in lower case and read as
    /// a number or a name.
    pub fn parse(text: &str) -> (r: Result<InputSource, InvalidInputSource>)
        ensures
            r matches Ok(input) ==> Self::of_lowercase_text(lowercase_of(trim(text@))) == Some(
                input,
            ),
            r matches Err(e) ==> Self::of_lowercase_text(lowercase_of(trim(text@))) is None
                && e.text@ == lowercase_of(trim(text@)),
    {
        let stripped = string_of(&trimmed(&chars_of(text)));
        let lower = to_lowercase(stripped.as_str());
        Self::from_lowercase_text(lower.as_str())
    }

    /// The input as text: `Hdmi1(0x11)` for a named input, `Custom(0x16)`
    /// for a raw value.
    pub fn to_string(&self) -> (s: String)
        ensures
            s@ == self.text_spec(),
    {
        let mut out: Vec<char> = Vec::new();
        match self {
            InputSource::Symbolic(sym) => {
                push_str(&mut out, sym.name());
                push_str(&mut out, "(0x");
                push_hex(&mut out, sym.value() as u64);
                push_str(&mut out, ")");
            },
            InputSource::Raw(value) => {
                push_str(&mut out, "Custom(0x");
                push_hex(&mut out, *value as u64);
                push_str(&mut out, ")");
            },
        }
        string_of(&out)
    }
}

impl InvalidInputSource {
    /// The message that reports this error.
    pub fn message(&self) -> (m: String)
        ensures
            m@ == "Invalid input source: "@ + self.text@,
    {
        let mut out: Vec<char> = Vec::new();
        push_str(&mut out, "Invalid input source: ");
        push_str(&mut out, self.text.as_str());
        string_of(&out)
    }
}

impl PartialEq for InputSource {
    /// Two input sources are equal when their values are.
    fn eq(&self, other: &Self) -> (equal: bool) {
        self.value() == other.value()
    }
}

impl vstd::std_specs::cmp::PartialEqSpecImpl for InputSource {
    open spec fn obeys_eq_spec() -> bool {
        true
    }

    open spec fn eq_spec(&self, other: &Self) -> bool {
        self.value_spec() == other.value_spec()
    }
}

impl From<u16> for InputSource {
    /// The input with the given VCP value, by name where it has one.
    fn from(value: u16) -> (r: InputSource) {
        InputSource::Raw(value).normalize()
    }
}

impl vstd::std_specs::convert::FromSpecImpl<u16> for InputSource {
    open spec fn obeys_from_spec() -> bool {
        true
    }

    open spec fn from_spec(value: u16) -> InputSource {
        InputSource::Raw(value).normalize_spec()
    }
}

impl From<InputSource> for u16 {
    /// The VCP value of the input.
    fn from(val: InputSource) -> (v: u16) {
        val.value()
    }
}

impl vstd::std_specs::convert::FromSpecImpl<InputSource> for u16 {
    open spec fn obeys_from_spec() -> bool {
        true
    }

    open spec fn from_spec(val: InputSource) -> u16 {
        val.value_spec()
    }
}

/// A raw value that has a name and the named input are the same input:
/// normalizing the raw value gives the named input, and the two compare
/// equal even before that.
pub proof fn lemma_raw_equals_symbolic(sym: SymbolicInputSource)
    ensures
        InputSource::Raw(sym.value_spec()).normalize_spec() == InputSource::Symbolic(sym),
        InputSource::Raw(sym.value_spec()).eq_spec(&InputSource::Symbolic(sym)),
        SymbolicInputSource::of_value(sym.value_spec()) == Some(sym),
{
}

/// Normalizing changes neither the value of an input nor, done twice,
/// anything the first time did not.
pub proof fn lemma_normalize_idempotent(input: InputSource)
    ensures
        input.normalize_spec().value_spec() == input.value_spec(),
        input.normalize_spec().normalize_spec() == input.normalize_spec(),
        input.normalize_spec().eq_spec(&input),
{
}

} // verus!
