use config::FileFormat::Ini;
use display_switch::configuration::{
    matches_lowercase, Configuration, InputSources, PerMonitorConfiguration, SwitchDirection,
};
use display_switch::input_source::InputSource;

fn no_sources() -> InputSources {
    InputSources {
        on_usb_connect: None,
        on_usb_disconnect: None,
        on_usb_connect_execute: None,
        on_usb_disconnect_execute: None,
    }
}

fn load_test_config(config_str: &str) -> Result<Configuration, String> {
    let mut settings = config::Config::default();
    settings.merge(config::File::from_str(config_str, Ini)).unwrap();
    let usb_device = settings.get_str("usb_device").map_err(|e| e.to_string())?;
    let monitor_input = settings.get_str("monitor_input").map_err(|e| e.to_string())?;
    let input = InputSource::parse(&monitor_input).map_err(|e| e.message())?;
    let mut sources = no_sources();
    sources.on_usb_connect = Some(input);
    Ok(Configuration::new(&usb_device, sources, Vec::new()))
}

#[test]
fn test_usb_device_deserialization() {
    let config = load_test_config(
        r#"
            usb_device = "dead:BEEF"
            monitor_input = "DisplayPort2"
        "#,
    )
    .unwrap();
    assert_eq!(config.usb_device, "dead:beef")
}

#[test]
fn test_symbolic_input_deserialization() {
    let config = load_test_config(
        r#"
            usb_device = "dead:BEEF"
            monitor_input = "DisplayPort2"
        "#,
    )
    .unwrap();
    assert_eq!(config.default_input_sources.on_usb_connect.unwrap().value(), 0x10);
}

#[test]
fn test_decimal_input_deserialization() {
    let config = load_test_config(
        r#"
            usb_device = "dead:BEEF"
            monitor_input = 22
        "#,
    )
    .unwrap();
    assert_eq!(config.default_input_sources.on_usb_connect.unwrap().value(), 22);
}

#[test]
fn test_hexadecimal_input_deserialization() {
    let config = load_test_config(
        r#"
            usb_device = "dead:BEEF"
            monitor_input = "0x10"
        "#,
    )
    .unwrap();
    assert_eq!(config.default_input_sources.on_usb_connect.unwrap().value(), 16);
}

#[test]
fn invalid_input_is_reported_with_its_text() {
    let loaded = load_test_config(
        r#"
            usb_device = "dead:BEEF"
            monitor_input = "Scart7"
        "#,
    );
    assert_eq!(loaded.err().unwrap(), "Invalid input source: scart7");
}

fn precedence_config() -> Configuration {
    let mut defaults = no_sources();
    defaults.on_usb_connect = Some(InputSource::from(0x10u16));
    defaults.on_usb_disconnect = Some(InputSource::from(0x0fu16));
    defaults.on_usb_connect_execute = Some(String::from("echo all"));
    let mut own = no_sources();
    own.on_usb_connect = Some(InputSource::from(0x11u16));
    own.on_usb_disconnect_execute = Some(String::from("echo left"));
    Configuration::new(
        "dead:beef",
        defaults,
        vec![PerMonitorConfiguration { monitor_id: String::from("1234"), input_sources: own }],
    )
}

#[test]
fn monitor_override_wins_where_it_is_set() {
    let config = precedence_config();
    let sources = config.configuration_for_monitor("1234");
    assert_eq!(sources.source(SwitchDirection::Connect).unwrap().value(), 0x11);
}

#[test]
fn monitor_override_falls_back_to_global_where_unset() {
    let config = precedence_config();
    let sources = config.configuration_for_monitor("1234");
    assert_eq!(sources.source(SwitchDirection::Disconnect).unwrap().value(), 0x0f);
}

#[test]
fn unmatched_monitor_gets_global_default() {
    let config = precedence_config();
    let sources = config.configuration_for_monitor("9999");
    assert_eq!(sources.source(SwitchDirection::Connect).unwrap().value(), 0x10);
    assert_eq!(sources.source(SwitchDirection::Disconnect).unwrap().value(), 0x0f);
}

#[test]
fn identity_is_matched_as_substring_whatever_the_case() {
    let mut own = no_sources();
    own.on_usb_connect = Some(InputSource::from(0x12u16));
    let config = Configuration::new(
        "dead:beef",
        no_sources(),
        vec![PerMonitorConfiguration { monitor_id: String::from("dell u27"), input_sources: own }],
    );
    let hit = config.configuration_for_monitor("'DELL U2720Q 12345'");
    assert_eq!(hit.source(SwitchDirection::Connect).unwrap().value(), 0x12);
    let miss = config.configuration_for_monitor("'LG 27UK'");
    assert!(miss.source(SwitchDirection::Connect).is_none());
    assert!(config.monitors[0].matches("xx Dell U27 yy"));
    assert!(!config.monitors[0].matches("Dell U2"));
}

#[test]
fn first_matching_monitor_counts() {
    let mut first = no_sources();
    first.on_usb_connect = Some(InputSource::from(0x11u16));
    let mut second = no_sources();
    second.on_usb_connect = Some(InputSource::from(0x12u16));
    second.on_usb_disconnect = Some(InputSource::from(0x03u16));
    let config = Configuration::new(
        "dead:beef",
        no_sources(),
        vec![
            PerMonitorConfiguration { monitor_id: String::from("abc"), input_sources: first },
            PerMonitorConfiguration { monitor_id: String::from("ab"), input_sources: second },
        ],
    );
    let both = config.configuration_for_monitor("abc");
    assert_eq!(both.source(SwitchDirection::Connect).unwrap().value(), 0x11);
    assert!(both.source(SwitchDirection::Disconnect).is_none());
    let only_second = config.configuration_for_monitor("xab");
    assert_eq!(only_second.source(SwitchDirection::Connect).unwrap().value(), 0x12);
}

#[test]
fn global_command_is_never_part_of_monitor_settings() {
    let config = precedence_config();
    let matched = config.configuration_for_monitor("1234");
    assert_eq!(matched.execute_command(SwitchDirection::Connect), None);
    assert_eq!(matched.execute_command(SwitchDirection::Disconnect), Some("echo left"));
    let unmatched = config.configuration_for_monitor("9999");
    assert_eq!(unmatched.execute_command(SwitchDirection::Connect), None);
    assert_eq!(
        config.default_input_sources.execute_command(SwitchDirection::Connect),
        Some("echo all")
    );
}

#[test]
fn merge_takes_inputs_but_not_commands_from_default() {
    let mut defaults = no_sources();
    defaults.on_usb_connect = Some(InputSource::from(0x10u16));
    defaults.on_usb_connect_execute = Some(String::from("a"));
    let mut own = no_sources();
    own.on_usb_disconnect = Some(InputSource::from(0x04u16));
    let merged = own.merge(&defaults);
    assert_eq!(merged.on_usb_connect.unwrap().value(), 0x10);
    assert_eq!(merged.on_usb_disconnect.unwrap().value(), 0x04);
    assert!(merged.on_usb_connect_execute.is_none());
    assert!(merged.on_usb_disconnect_execute.is_none());
}

#[test]
fn lowercase_matching_is_plain_substring_search() {
    assert!(matches_lowercase("", "anything"));
    assert!(matches_lowercase("", ""));
    assert!(matches_lowercase("dp-1", "'dp-1'"));
    assert!(matches_lowercase("1'", "'dp-1'"));
    assert!(!matches_lowercase("dp-2", "'dp-1'"));
    assert!(!matches_lowercase("DP-1", "'dp-1'"));
    assert!(!matches_lowercase("longer than the identity", "short"));
}

#[test]
fn watched_device_is_put_in_lower_case() {
    let config = Configuration::new("DEAD:Beef", no_sources(), Vec::new());
    assert_eq!(config.usb_device, "dead:beef");
    assert_ne!(config.usb_device, "DEAD:Beef");
}
