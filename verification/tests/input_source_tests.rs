use display_switch::input_source::{parse_int, InputSource, ParseIntError, SymbolicInputSource};

#[test]
fn raw_value_with_a_name_equals_the_named_input() {
    let raw = InputSource::from(0x11u16);
    assert!(raw == InputSource::Symbolic(SymbolicInputSource::Hdmi1));
    assert!(InputSource::Raw(0x11) == InputSource::Symbolic(SymbolicInputSource::Hdmi1));
    assert!(matches!(raw, InputSource::Symbolic(SymbolicInputSource::Hdmi1)));
    assert_eq!(raw.value(), 0x11);
}

#[test]
fn every_named_input_has_its_value_and_comes_back_from_it() {
    let table = [
        (SymbolicInputSource::DisplayPort1, 0x0fu16, "DisplayPort1"),
        (SymbolicInputSource::DisplayPort2, 0x10, "DisplayPort2"),
        (SymbolicInputSource::Hdmi1, 0x11, "Hdmi1"),
        (SymbolicInputSource::Hdmi2, 0x12, "Hdmi2"),
        (SymbolicInputSource::CompositeVideo1, 0x05, "CompositeVideo1"),
        (SymbolicInputSource::CompositeVideo2, 0x06, "CompositeVideo2"),
        (SymbolicInputSource::Dvi1, 0x03, "Dvi1"),
        (SymbolicInputSource::Dvi2, 0x04, "Dvi2"),
        (SymbolicInputSource::Vga1, 0x01, "Vga1"),
    ];
    for (sym, value, name) in table {
        assert_eq!(sym.value(), value);
        assert_eq!(SymbolicInputSource::from_value(value), Some(sym));
        assert_eq!(sym.name(), name);
        assert_eq!(SymbolicInputSource::from_name(name), Some(sym));
        assert_eq!(SymbolicInputSource::from_lowercase_name(&name.to_lowercase()), Some(sym));
        assert_eq!(InputSource::Symbolic(sym).value(), value);
        assert!(matches!(InputSource::Raw(value).normalize(), InputSource::Symbolic(s) if s == sym));
        assert_eq!(u16::from(InputSource::Symbolic(sym)), value);
    }
}

#[test]
fn value_without_a_name_stays_raw() {
    assert!(matches!(InputSource::Raw(0x16).normalize(), InputSource::Raw(0x16)));
    assert!(matches!(InputSource::from(0u16), InputSource::Raw(0)));
    assert!(matches!(InputSource::from(0x13u16), InputSource::Raw(0x13)));
    assert_eq!(SymbolicInputSource::from_value(0x02), None);
    assert_eq!(InputSource::Raw(0xffff).value(), 0xffff);
}

#[test]
fn inputs_with_different_values_differ() {
    assert!(InputSource::Raw(0x10) != InputSource::Symbolic(SymbolicInputSource::Hdmi1));
    assert!(InputSource::Raw(5) != InputSource::Raw(6));
    assert!(
        InputSource::Symbolic(SymbolicInputSource::Dvi1)
            != InputSource::Symbolic(SymbolicInputSource::Dvi2)
    );
}

#[test]
fn names_are_looked_up_in_lower_case_only_after_lowering() {
    assert_eq!(SymbolicInputSource::from_lowercase_name("hdmi1"), Some(SymbolicInputSource::Hdmi1));
    assert_eq!(SymbolicInputSource::from_lowercase_name("Hdmi1"), None);
    assert_eq!(SymbolicInputSource::from_name("HDMI1"), Some(SymbolicInputSource::Hdmi1));
    assert_eq!(SymbolicInputSource::from_name("hdmi3"), None);
    assert_eq!(SymbolicInputSource::from_name(""), None);
}

#[test]
fn parse_int_reads_decimal_and_hexadecimal() {
    assert_eq!(parse_int("22"), Ok(22));
    assert_eq!(parse_int("0"), Ok(0));
    assert_eq!(parse_int("0x10"), Ok(16));
    assert_eq!(parse_int("0xff"), Ok(255));
    assert_eq!(parse_int("0xFFFF"), Ok(0xffff));
    assert_eq!(parse_int("65535"), Ok(65535));
    assert_eq!(parse_int("007"), Ok(7));
    assert_eq!(parse_int("+22"), Ok(22));
    assert_eq!(parse_int("0x+1f"), Ok(0x1f));
    assert_eq!(parse_int("0x0000000011"), Ok(0x11));
}

#[test]
fn parse_int_rejects_what_is_no_sixteen_bit_number() {
    for text in [
        "", "+", "-", "-1", "0x", "0x+", "65536", "0x10000", "99999999999999999999", "12a", "1 2",
        " 12", "12 ", "0X10", "x10", "hdmi1", "1.5", "++1", "٣",
    ] {
        assert_eq!(parse_int(text), Err(ParseIntError), "{:?}", text);
    }
}

#[test]
fn parse_reads_numbers_and_names() {
    assert!(matches!(InputSource::parse("22"), Ok(InputSource::Raw(22))));
    assert!(matches!(
        InputSource::parse("0x10"),
        Ok(InputSource::Symbolic(SymbolicInputSource::DisplayPort2))
    ));
    assert!(matches!(
        InputSource::parse("17"),
        Ok(InputSource::Symbolic(SymbolicInputSource::Hdmi1))
    ));
    assert!(matches!(
        InputSource::parse("DisplayPort2"),
        Ok(InputSource::Symbolic(SymbolicInputSource::DisplayPort2))
    ));
    assert!(matches!(
        InputSource::parse("  \tHDMI2\n"),
        Ok(InputSource::Symbolic(SymbolicInputSource::Hdmi2))
    ));
    assert!(matches!(
        InputSource::parse(" 0X12 "),
        Ok(InputSource::Symbolic(SymbolicInputSource::Hdmi2))
    ));
    assert!(matches!(InputSource::parse("0xffff"), Ok(InputSource::Raw(0xffff))));
}

#[test]
fn parse_rejects_unknown_text_and_keeps_it() {
    let error = InputSource::parse("  Scart 7 ").err().unwrap();
    assert_eq!(error.text, "scart 7");
    assert_eq!(error.message(), "Invalid input source: scart 7");
    assert!(InputSource::parse("").is_err());
    assert!(InputSource::parse("65536").is_err());
    assert!(InputSource::parse("hdmi 1").is_err());
    assert!(InputSource::from_lowercase_text("HDMI1").is_ok());
    assert!(InputSource::from_lowercase_text(" hdmi1").is_err());
}

#[test]
fn inputs_are_shown_by_name_and_value() {
    assert_eq!(InputSource::Symbolic(SymbolicInputSource::Hdmi1).to_string(), "Hdmi1(0x11)");
    assert_eq!(
        InputSource::Symbolic(SymbolicInputSource::DisplayPort1).to_string(),
        "DisplayPort1(0xf)"
    );
    assert_eq!(InputSource::Raw(0x16).to_string(), "Custom(0x16)");
    assert_eq!(InputSource::Raw(0).to_string(), "Custom(0x0)");
    assert_eq!(InputSource::Raw(0xffff).to_string(), "Custom(0xffff)");
    assert_eq!(InputSource::Raw(0x11).to_string(), "Custom(0x11)");
    assert_eq!(InputSource::from(0x11u16).to_string(), "Hdmi1(0x11)");
}
