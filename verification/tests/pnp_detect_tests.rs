use display_switch::app::App;
use display_switch::configuration::{Configuration, InputSources, SwitchDirection};
use display_switch::display_control::Platform;
use display_switch::pnp_detect::{
    PnPDetectLibusb, PnPDetectWindows, StartupError, Watch, WatchEvent, WatchStep, WindowMessage,
    WM_CREATE, WM_DESTROY, WM_DEVICECHANGE,
};
use display_switch::usb::{UsbCallback, UsbIds};
use display_switch::usb_devices::EnumerationError;

fn app() -> App {
    let none = InputSources {
        on_usb_connect: None,
        on_usb_disconnect: None,
        on_usb_connect_execute: None,
        on_usb_disconnect_execute: None,
    };
    App::new(Configuration::new("DEAD:beef", none, Vec::new()), Platform::Linux)
}

fn ids(vendor_id: u16, product_id: u16) -> Option<UsbIds> {
    Some(UsbIds { vendor_id, product_id })
}

#[test]
fn app_answers_only_the_watched_device() {
    let app = app();
    assert_eq!(app.device_added("dead:beef"), Some(SwitchDirection::Connect));
    assert_eq!(app.device_removed("dead:beef"), Some(SwitchDirection::Disconnect));
    assert_eq!(app.device_added("dead:bee0"), None);
    assert_eq!(app.device_removed("046d:c52b"), None);
    assert_eq!(app.device_added("DEAD:BEEF"), None);
    assert_eq!(app.config().usb_device, "dead:beef");
    assert_eq!(app.platform(), Platform::Linux);
}

#[test]
fn push_detector_reports_arrivals_and_departures() {
    let detector = app().run();
    assert_eq!(detector.device_arrived(&ids(0xdead, 0xbeef)), Some(SwitchDirection::Connect));
    assert_eq!(detector.device_left(&ids(0xdead, 0xbeef)), Some(SwitchDirection::Disconnect));
    assert_eq!(detector.device_arrived(&ids(0xbeef, 0xdead)), None);
    assert_eq!(detector.device_left(&ids(1, 2)), None);
    assert_eq!(detector.handler().config().usb_device, "dead:beef");
}

#[test]
fn push_detector_drops_events_without_descriptor() {
    let detector = PnPDetectLibusb::new(app());
    assert_eq!(detector.device_arrived(&None), None);
    assert_eq!(detector.device_left(&None), None);
}

#[test]
fn polling_detector_reports_each_transition_once() {
    let mut detector = PnPDetectWindows::new(app(), Ok(vec![ids(1, 1)])).ok().unwrap();
    assert!(detector.handle_hotplug_event(Ok(vec![ids(1, 1)])).is_empty());
    assert_eq!(
        detector.handle_hotplug_event(Ok(vec![ids(1, 1), ids(0xdead, 0xbeef), ids(2, 2)])),
        vec![SwitchDirection::Connect]
    );
    assert!(detector
        .handle_hotplug_event(Ok(vec![ids(0xdead, 0xbeef), ids(0xdead, 0xbeef), ids(3, 3)]))
        .is_empty());
    assert_eq!(
        detector.handle_hotplug_event(Ok(vec![ids(3, 3), ids(4, 4)])),
        vec![SwitchDirection::Disconnect]
    );
    assert!(detector.handle_hotplug_event(Ok(vec![ids(3, 3), ids(4, 4)])).is_empty());
    assert!(detector.handle_hotplug_event(Ok(vec![])).is_empty());
}

#[test]
fn polling_detector_keeps_its_list_when_listing_fails() {
    let mut detector =
        PnPDetectWindows::new(app(), Ok(vec![ids(0xdead, 0xbeef)])).ok().unwrap();
    let failed = Err(EnumerationError { reason: String::from("busy") });
    assert!(detector.handle_hotplug_event(failed).is_empty());
    assert!(detector.handle_hotplug_event(Ok(vec![ids(0xdead, 0xbeef)])).is_empty());
    assert_eq!(
        detector.handle_hotplug_event(Ok(vec![None])),
        vec![SwitchDirection::Disconnect]
    );
}

#[test]
fn polling_detector_is_not_made_when_first_listing_fails() {
    let failed = Err(EnumerationError { reason: String::from("no usb") });
    let result = PnPDetectWindows::new(app(), failed);
    assert_eq!(result.err().unwrap().reason, "no usb");
}

#[test]
fn polling_detector_starts_from_its_first_listing() {
    let mut detector = PnPDetectWindows::new(app(), Ok(Vec::new())).ok().unwrap();
    assert_eq!(detector.handler().config().usb_device, "dead:beef");
    assert_eq!(
        detector.handle_hotplug_event(Ok(vec![ids(0xdead, 0xbeef)])),
        vec![SwitchDirection::Connect]
    );
    let mut present =
        PnPDetectWindows::new(app(), Ok(vec![ids(0xdead, 0xbeef)])).ok().unwrap();
    assert!(present.handle_hotplug_event(Ok(vec![ids(0xdead, 0xbeef)])).is_empty());
}

#[test]
fn watching_begins_only_after_support_and_registration() {
    let detector = PnPDetectLibusb::new(app());
    let detect = |state, event| detector.detect(state, event);
    assert_eq!(
        detect(Watch::Starting, WatchEvent::Support(true)),
        (Watch::Registering, WatchStep::Register)
    );
    assert_eq!(
        detect(Watch::Starting, WatchEvent::Support(false)),
        (
            Watch::Failed(StartupError::HotplugUnsupported),
            WatchStep::Stop(StartupError::HotplugUnsupported)
        )
    );
    assert_eq!(
        detect(Watch::Registering, WatchEvent::Registered(true)),
        (Watch::Watching, WatchStep::HandleEvents)
    );
    assert_eq!(
        detect(Watch::Registering, WatchEvent::Registered(false)),
        (
            Watch::Failed(StartupError::RegistrationFailed),
            WatchStep::Stop(StartupError::RegistrationFailed)
        )
    );
    assert_eq!(
        detect(Watch::Starting, WatchEvent::Registered(true)),
        (Watch::Starting, WatchStep::CheckSupport)
    );
}

#[test]
fn event_errors_never_end_the_watching() {
    let detector = PnPDetectLibusb::new(app());
    let detect = |state, event| detector.detect(state, event);
    for event in [
        WatchEvent::Handled(false),
        WatchEvent::Handled(true),
        WatchEvent::Support(false),
        WatchEvent::Registered(false),
    ] {
        assert_eq!(detect(Watch::Watching, event), (Watch::Watching, WatchStep::HandleEvents));
        let failed = Watch::Failed(StartupError::RegistrationFailed);
        assert_eq!(
            detect(failed, event),
            (failed, WatchStep::Stop(StartupError::RegistrationFailed))
        );
    }
}

#[test]
fn window_messages_are_told_apart() {
    let window_proc = PnPDetectWindows::<App>::window_proc;
    assert_eq!(window_proc(WM_CREATE), WindowMessage::Create);
    assert_eq!(window_proc(WM_DESTROY), WindowMessage::Destroy);
    assert_eq!(window_proc(WM_DEVICECHANGE), WindowMessage::DeviceChange);
    assert_eq!(window_proc(0x0219), WindowMessage::DeviceChange);
    assert_eq!(window_proc(0), WindowMessage::Other);
    assert_eq!(window_proc(0x000f), WindowMessage::Other);
    assert_eq!(window_proc(u32::MAX), WindowMessage::Other);
}

#[test]
fn message_loop_ends_when_the_window_is_gone() {
    let detector = PnPDetectWindows::new(app(), Ok(Vec::new())).ok().unwrap();
    assert!(detector.detect(1));
    assert!(detector.detect(-1));
    assert!(!detector.detect(0));
}
