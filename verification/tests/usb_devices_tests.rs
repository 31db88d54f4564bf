use display_switch::usb::{device_id, UsbIds};
use display_switch::usb_devices::{DeviceSet, EnumerationError, UsbChangeDetector};

fn ids(vendor_id: u16, product_id: u16) -> Option<UsbIds> {
    Some(UsbIds { vendor_id, product_id })
}

fn sorted(set: &DeviceSet) -> Vec<String> {
    let mut all = set.ids();
    all.sort();
    all
}

fn failure(reason: &str) -> EnumerationError {
    EnumerationError { reason: String::from(reason) }
}

#[test]
fn device_id_is_vendor_colon_product_in_four_hex_digits() {
    assert_eq!(device_id(&ids(0xdead, 0xbeef)), Some(String::from("dead:beef")));
    assert_eq!(device_id(&ids(0x1, 0x2)), Some(String::from("0001:0002")));
    assert_eq!(device_id(&ids(0, 0xffff)), Some(String::from("0000:ffff")));
    assert_eq!(device_id(&ids(0x0A0B, 0x00C0)), Some(String::from("0a0b:00c0")));
    assert_eq!(device_id(&None), None);
}

#[test]
fn device_set_holds_each_identifier_once() {
    let set = DeviceSet::from_ids(vec![
        String::from("a"),
        String::from("b"),
        String::from("a"),
        String::from("c"),
        String::from("b"),
    ]);
    assert_eq!(set.len(), 3);
    assert_eq!(set.ids(), vec!["a", "b", "c"]);
    assert!(set.contains("a") && set.contains("b") && set.contains("c"));
    assert!(!set.contains("d"));
    assert!(!set.contains(""));
    assert!(!set.is_empty());
    assert!(DeviceSet::new().is_empty());
    assert_eq!(DeviceSet::new().len(), 0);
    let more = set.with(String::from("a")).with(String::from("z"));
    assert_eq!(more.ids(), vec!["a", "b", "c", "z"]);
}

#[test]
fn listing_collapses_identical_devices_and_drops_unreadable_ones() {
    let set = DeviceSet::from_listing(&vec![
        ids(0x046d, 0xc52b),
        None,
        ids(0x046d, 0xc52b),
        ids(0xdead, 0xbeef),
        None,
    ]);
    assert_eq!(set.ids(), vec!["046d:c52b", "dead:beef"]);
    assert!(DeviceSet::from_listing(&vec![None, None]).is_empty());
}

#[test]
fn difference_keeps_what_the_other_set_lacks() {
    let left = DeviceSet::from_ids(vec![String::from("a"), String::from("b"), String::from("c")]);
    let right = DeviceSet::from_ids(vec![String::from("b"), String::from("d")]);
    assert_eq!(left.difference(&right).ids(), vec!["a", "c"]);
    assert_eq!(right.difference(&left).ids(), vec!["d"]);
    assert!(left.difference(&left).is_empty());
    assert_eq!(left.difference(&DeviceSet::new()).ids(), vec!["a", "b", "c"]);
    assert!(DeviceSet::new().difference(&left).is_empty());
}

#[test]
fn changes_are_what_was_added_and_what_was_removed() {
    let mut detector =
        UsbChangeDetector::new(Ok(vec![ids(1, 1), ids(2, 2), ids(3, 3)])).ok().unwrap();
    let changes =
        detector.detect_changed_devices(Ok(vec![ids(2, 2), ids(4, 4), ids(5, 5)])).ok().unwrap();
    assert_eq!(sorted(&changes.added), vec!["0004:0004", "0005:0005"]);
    assert_eq!(sorted(&changes.removed), vec!["0001:0001", "0003:0003"]);
    for id in changes.added.ids() {
        assert!(!changes.removed.contains(&id));
    }
    assert_eq!(
        sorted(detector.current_devices()),
        vec!["0002:0002", "0004:0004", "0005:0005"]
    );
}

#[test]
fn unchanged_listing_yields_two_empty_sets() {
    let mut detector = UsbChangeDetector::new(Ok(vec![ids(1, 1)])).ok().unwrap();
    let first = detector.detect_changed_devices(Ok(vec![ids(1, 1), ids(0xdead, 0xbeef)]));
    let first = first.ok().unwrap();
    assert_eq!(first.added.ids(), vec!["dead:beef"]);
    assert!(first.removed.is_empty());
    let again = detector.detect_changed_devices(Ok(vec![ids(0xdead, 0xbeef), ids(1, 1)]));
    let again = again.ok().unwrap();
    assert!(again.added.is_empty());
    assert!(again.removed.is_empty());
}

#[test]
fn device_that_cannot_be_queried_counts_as_absent() {
    let mut detector = UsbChangeDetector::new(Ok(vec![ids(1, 1), ids(2, 2)])).ok().unwrap();
    let changes = detector.detect_changed_devices(Ok(vec![ids(1, 1), None])).ok().unwrap();
    assert!(changes.added.is_empty());
    assert_eq!(changes.removed.ids(), vec!["0002:0002"]);
    assert_eq!(detector.current_devices().ids(), vec!["0001:0001"]);
}

#[test]
fn failed_first_listing_fails_construction() {
    let result = UsbChangeDetector::new(Err(failure("no usb")));
    assert_eq!(result.err().unwrap().reason, "no usb");
}

#[test]
fn failed_listing_is_returned_and_keeps_the_inventory() {
    let mut detector = UsbChangeDetector::new(Ok(vec![ids(1, 1)])).ok().unwrap();
    let result = detector.detect_changed_devices(Err(failure("busy")));
    assert_eq!(result.err().unwrap().reason, "busy");
    assert_eq!(detector.current_devices().ids(), vec!["0001:0001"]);
    let changes = detector.detect_changed_devices(Ok(vec![])).ok().unwrap();
    assert_eq!(changes.removed.ids(), vec!["0001:0001"]);
    assert!(changes.added.is_empty());
}
