use zenbook_duo::config::DeviceConfig;
use zenbook_duo::matcher::{
    check_property, is_device_duo_keyboard, is_it_duo_keyboard, properties_match, readable, Device,
    Event, EventType, Property,
};

fn identity() -> DeviceConfig {
    DeviceConfig { vendor_id: "0b05".to_string(), product_id: "1bf2".to_string() }
}

fn props(pairs: &[(&str, &str)]) -> Vec<Property> {
    pairs.iter().map(|(n, v)| Property { name: n.to_string(), value: v.to_string() }).collect()
}

fn device(path: &str, pairs: &[(&str, &str)]) -> Device {
    Device { devpath: path.to_string(), properties: props(pairs) }
}

fn event(event_type: EventType, path: &str, pairs: &[(&str, &str)]) -> Event {
    Event { event_type, device: device(path, pairs) }
}

fn flags(name: &str, value: &str) -> (bool, bool) {
    let mut vendor = false;
    let mut product = false;
    check_property(name, value, &mut vendor, &mut product, &identity());
    (vendor, product)
}

#[test]
fn separate_identifiers_match_whatever_their_case() {
    let d = device("/devices/usb1/1-1", &[("ID_VENDOR_ID", "0B05"), ("ID_MODEL_ID", "1BF2")]);
    assert!(is_device_duo_keyboard(&d, &identity()));
}

#[test]
fn composite_property_matches() {
    let d = device("/devices/usb1/1-1", &[("PRODUCT", "0b05/1bf2/100")]);
    assert!(is_device_duo_keyboard(&d, &identity()));
}

#[test]
fn vendor_alone_does_not_match() {
    let d = device("/devices/usb1/1-1", &[("ID_VENDOR_ID", "0b05")]);
    assert!(!is_device_duo_keyboard(&d, &identity()));
}

#[test]
fn product_alone_does_not_match() {
    assert!(!properties_match(&props(&[("ID_MODEL", "1bf2")]), &identity()));
    assert!(!properties_match(&props(&[]), &identity()));
}

#[test]
fn aliases_set_the_flags() {
    assert_eq!(flags("ID_VENDOR_ID", "0b05"), (true, false));
    assert_eq!(flags("ID_VENDOR", "0B05"), (true, false));
    assert_eq!(flags("ID_MODEL_ID", "1bf2"), (false, true));
    assert_eq!(flags("ID_MODEL", "1BF2"), (false, true));
    assert_eq!(flags("PRODUCT", "0b05/1bf2/100"), (true, true));
    assert_eq!(flags("ID_SERIAL", "0b05"), (false, false));
    assert_eq!(flags("id_vendor_id", "0b05"), (false, false));
}

#[test]
fn values_are_trimmed_before_they_are_compared() {
    assert_eq!(flags("ID_VENDOR_ID", "  0b05\n"), (true, false));
    assert_eq!(flags("ID_MODEL_ID", "\t1bf2 "), (false, true));
    assert_eq!(flags("PRODUCT", " 0B05/1BF2/100 "), (true, true));
    assert_eq!(flags("ID_VENDOR_ID", "0b 05"), (false, false));
}

#[test]
fn composite_fields_are_compared_by_position() {
    assert_eq!(flags("PRODUCT", "0b05/ffff/100"), (true, false));
    assert_eq!(flags("PRODUCT", "ffff/1bf2/100"), (false, true));
    assert_eq!(flags("PRODUCT", "1bf2/0b05/100"), (false, false));
    assert_eq!(flags("PRODUCT", "0b05/1bf2"), (true, true));
    assert_eq!(flags("PRODUCT", "0b05"), (false, false));
    assert_eq!(flags("PRODUCT", ""), (false, false));
    assert_eq!(flags("PRODUCT", "0b05/ 1bf2/100"), (true, false));
}

#[test]
fn a_raised_flag_stays_raised() {
    let mut vendor = true;
    let mut product = true;
    check_property("ID_VENDOR_ID", "ffff", &mut vendor, &mut product, &identity());
    assert!(vendor && product);
    check_property("PRODUCT", "ffff/ffff/1", &mut vendor, &mut product, &identity());
    assert!(vendor && product);
}

#[test]
fn identifiers_may_come_from_different_properties() {
    let d = device("/p", &[("ID_VENDOR", "0b05"), ("PRODUCT", "ffff/1bf2/1")]);
    assert!(is_device_duo_keyboard(&d, &identity()));
    let conflicting = device("/p", &[("ID_VENDOR_ID", "ffff"), ("PRODUCT", "0b05/1bf2/1")]);
    assert!(is_device_duo_keyboard(&conflicting, &identity()));
}

#[test]
fn the_identity_is_compared_as_configured() {
    let short = DeviceConfig { vendor_id: "b05".to_string(), product_id: "1bf2".to_string() };
    let d = device("/p", &[("ID_VENDOR_ID", "0b05"), ("ID_MODEL_ID", "1bf2")]);
    assert!(!is_device_duo_keyboard(&d, &short));
}

#[test]
fn removal_below_the_known_path_is_recognized_without_properties() {
    let known = Some("/devices/usb1/1-1".to_string());
    let e = event(EventType::Remove, "/devices/usb1/1-1/1-1:1.0", &[]);
    assert_eq!(is_it_duo_keyboard(&e, &known, &identity()), Some("/devices/usb1/1-1".to_string()));
}

#[test]
fn removal_above_or_at_the_known_path_is_recognized() {
    let known = Some("/devices/usb1/1-1".to_string());
    let at = event(EventType::Remove, "/devices/usb1/1-1", &[]);
    let above = event(EventType::Remove, "/devices/usb1", &[]);
    assert_eq!(is_it_duo_keyboard(&at, &known, &identity()), known);
    assert_eq!(is_it_duo_keyboard(&above, &known, &identity()), known);
}

#[test]
fn removal_elsewhere_needs_matching_properties() {
    let known = Some("/devices/usb1/1-1".to_string());
    let bare = event(EventType::Remove, "/devices/usb1/1-2", &[]);
    assert_eq!(is_it_duo_keyboard(&bare, &known, &identity()), None);
    let named = event(EventType::Remove, "/devices/usb1/1-2", &[("PRODUCT", "b05/1bf2/1")]);
    assert_eq!(is_it_duo_keyboard(&named, &known, &identity()), None);
    let matching = event(EventType::Remove, "/devices/usb1/1-2", &[("PRODUCT", "0b05/1bf2/1")]);
    assert_eq!(
        is_it_duo_keyboard(&matching, &known, &identity()),
        Some("/devices/usb1/1-2".to_string())
    );
}

#[test]
fn the_known_path_serves_removals_only() {
    let known = Some("/devices/usb1/1-1".to_string());
    for kind in [EventType::Add, EventType::Change, EventType::Bind, EventType::Unbind, EventType::Unknown] {
        let e = event(kind, "/devices/usb1/1-1/1-1:1.0", &[]);
        assert_eq!(is_it_duo_keyboard(&e, &known, &identity()), None);
    }
}

#[test]
fn without_a_known_path_the_properties_decide() {
    let bare = event(EventType::Remove, "/devices/usb1/1-1", &[]);
    assert_eq!(is_it_duo_keyboard(&bare, &None, &identity()), None);
    let add = event(EventType::Add, "/devices/usb1/1-1", &[("ID_VENDOR_ID", "0b05"), ("ID_MODEL_ID", "1bf2")]);
    assert_eq!(is_it_duo_keyboard(&add, &None, &identity()), Some("/devices/usb1/1-1".to_string()));
}

#[test]
fn a_property_with_an_unreadable_part_is_passed_over() {
    assert!(readable(None, Some("0b05".to_string())).is_none());
    assert!(readable(Some("ID_VENDOR_ID".to_string()), None).is_none());
    assert!(readable(None, None).is_none());
    let p = readable(Some("ID_VENDOR_ID".to_string()), Some("0b05".to_string())).unwrap();
    assert_eq!(p.name, "ID_VENDOR_ID");
    assert_eq!(p.value, "0b05");
}
