use crate::config::DeviceConfig;
use crate::devpath::{paths_related, related};
use crate::text::{
    chars_of, eq_ignore_case, is_text, same_ignoring_case, split,
    split_fields, text_of, texts, trim, trimmed,
};
use vstd::prelude::*;

verus! {

/// One property of a device: a name and its value.
#[derive(Debug, Clone)]
pub struct Property {
    pub name: String,
    pub value: String,
}

/// A device as the bus describes it: its path and its properties.
#[derive(Debug, Clone)]
pub struct Device {
    pub devpath: String,
    pub properties: Vec<Property>,
}

/// What an event of the bus reports of its device.
#[derive(Debug, Clone, Copy, PartialEq, Eq, Structural)]
pub enum EventType {
    Add,
    Change,
    Remove,
    Bind,
    Unbind,
    Unknown,
}

/// An event of the bus: what happened, and to which device.
#[derive(Debug, Clone)]
pub struct Event {
    pub event_type: EventType,
    pub device: Device,
}

/// The property as the matcher reads it, where both its name and its value
/// could be read as text; a property with an unreadable part is passed over.
pub fn readable(name: Option<String>, value: Option<String>) -> (property: Option<Property>)
    ensures
        property is Some <==> name is Some && value is Some,
        property is Some ==> property.unwrap().name == name.unwrap() && property.unwrap().value
            == value.unwrap(),
{
    match (name, value) {
        (Some(name), Some(value)) => Some(Property { name, value }),
        _ => None,
    }
}

/// A property that holds the vendor identifier alone.
pub open spec fn is_vendor_key(name: Seq<char>) -> bool {
    name == "ID_VENDOR_ID"@ || name == "ID_VENDOR"@
}

/// A property that holds the product identifier alone.
pub open spec fn is_product_key(name: Seq<char>) -> bool {
    name == "ID_MODEL_ID"@ || name == "ID_MODEL"@
}

/// The property that holds vendor, product and revision, with `/` between.
pub open spec fn is_composite_key(name: Seq<char>) -> bool {
    name == "PRODUCT"@
}

/// The fields of a composite value, where it has the two that are read.
pub open spec fn composite_fields(value: Seq<char>) -> Option<Seq<Seq<char>>> {
    let parts = split(trimmed(value), '/');
    if parts.len() >= 2 {
        Some(parts)
    } else {
        None
    }
}

/// The property names the vendor `vendor_id`.
pub open spec fn names_vendor(name: Seq<char>, value: Seq<char>, vendor_id: Seq<char>) -> bool {
    ||| is_vendor_key(name) && same_ignoring_case(trimmed(value), vendor_id)
    ||| is_composite_key(name) && composite_fields(value) is Some && same_ignoring_case(
        composite_fields(value).unwrap()[0],
        vendor_id,
    )
}

/// The property names the product `product_id`.
pub open spec fn names_product(name: Seq<char>, value: Seq<char>, product_id: Seq<char>) -> bool {
    ||| is_product_key(name) && same_ignoring_case(trimmed(value), product_id)
    ||| is_composite_key(name) && composite_fields(value) is Some && same_ignoring_case(
        composite_fields(value).unwrap()[1],
        product_id,
    )
}

/// Some property among the first `n` names the configured vendor.
pub open spec fn vendor_named(props: Seq<Property>, n: int, config: DeviceConfig) -> bool {
    exists|i: int|
        0 <= i < n && i < props.len() && #[trigger] names_vendor(
            props[i].name@,
            props[i].value@,
            config.vendor_id@,
        )
}

/// Some property among the first `n` names the configured product.
pub open spec fn product_named(props: Seq<Property>, n: int, config: DeviceConfig) -> bool {
    exists|i: int|
        0 <= i < n && i < props.len() && #[trigger] names_product(
            props[i].name@,
            props[i].value@,
            config.product_id@,
        )
}

/// The properties are those of the configured accessory: one of them names
/// its vendor and one of them, the same or another, names its product.
pub open spec fn matches_identity(props: Seq<Property>, config: DeviceConfig) -> bool {
    vendor_named(props, props.len() as int, config) && product_named(
        props,
        props.len() as int,
        config,
    )
}

/// The path under which an event is taken for the tracked accessory's: the
/// tracked path, where the event removes a device at, above or below it,
/// whatever its properties say; else the event's own path, where its
/// properties are those of the accessory.
pub open spec fn recognized_path(
    event: Event,
    known: Option<Seq<char>>,
    config: DeviceConfig,
) -> Option<Seq<char>> {
    if known is Some && event.event_type == EventType::Remove && paths_related(
        known.unwrap(),
        event.device.devpath@,
    ) {
        known
    } else if matches_identity(event.device.properties@, config) {
        Some(event.device.devpath@)
    } else {
        None
    }
}

/// Reads one property and raises the flag of each identifier that it names.
pub fn check_property(
    name: &str,
    val: &str,
    vendor_match: &mut bool,
    product_match: &mut bool,
    config: &DeviceConfig,
)
    ensures
        *final(vendor_match) == (*old(vendor_match) || names_vendor(
            name@,
            val@,
            config.vendor_id@,
        )),
        *final(product_match) == (*old(product_match) || names_product(
            name@,
            val@,
            config.product_id@,
        )),
{
    let key = chars_of(name);
    let value = trim(&chars_of(val));
    let vendor_id = chars_of(config.vendor_id.as_str());
    let product_id = chars_of(config.product_id.as_str());
    if is_text(&key, "ID_VENDOR_ID") || is_text(&key, "ID_VENDOR") {
        if eq_ignore_case(&value, &vendor_id) {
            *vendor_match = true;
        }
    }
    if is_text(&key, "ID_MODEL_ID") || is_text(&key, "ID_MODEL") {
        if eq_ignore_case(&value, &product_id) {
            *product_match = true;
        }
    }
    if is_text(&key, "PRODUCT") {
        let parts = split_fields(&value, '/');
        if parts.len() >= 2 {
            proof {
                assert(texts(parts@)[0] == parts@[0]@);
                assert(texts(parts@)[1] == parts@[1]@);
            }
            if eq_ignore_case(&parts[0], &vendor_id) {
                *vendor_match = true;
            }
            if eq_ignore_case(&parts[1], &product_id) {
                *product_match = true;
            }
        }
    }
}

/// Whether the properties are those of the configured accessory.
pub fn properties_match(props: &Vec<Property>, config: &DeviceConfig) -> (r: bool)
    ensures
        r == matches_identity(props@, *config),
{
    let mut vendor_match = false;
    let mut product_match = false;
    let mut i: usize = 0;
    while i < props.len()
        invariant
            i <= props.len(),
            vendor_match == vendor_named(props@, i as int, *config),
            product_match == product_named(props@, i as int, *config),
        decreases props.len() - i,
    {
        let ghost vendor_before = vendor_match;
        let ghost product_before = product_match;
        check_property(
            props[i].name.as_str(),
            props[i].value.as_str(),
            &mut vendor_match,
            &mut product_match,
            config,
        );
        proof {
            let p = props@[i as int];
            assert(vendor_named(props@, i as int + 1, *config) == (vendor_before || names_vendor(
                p.name@,
                p.value@,
                config.vendor_id@,
            )));
            assert(product_named(props@, i as int + 1, *config) == (product_before
                || names_product(p.name@, p.value@, config.product_id@)));
        }
        i += 1;
    }
    vendor_match && product_match
}

/// Whether an enumerated device is the configured accessory.
pub fn is_device_duo_keyboard(device: &Device, config: &DeviceConfig) -> (r: bool)
    ensures
        r == matches_identity(device.properties@, *config),
{
    properties_match(&device.properties, config)
}

/// Whether an event concerns the configured accessory, and under which path.
pub fn is_it_duo_keyboard(
    event: &Event,
    known_devpath: &Option<String>,
    config: &DeviceConfig,
) -> (r: Option<String>)
    ensures
        text_of(r) == recognized_path(*event, text_of(*known_devpath), *config),
{
    if let Some(known) = known_devpath {
        if event.event_type == EventType::Remove {
            if related(known.as_str(), event.device.devpath.as_str()) {
                return Some(known.clone());
            }
        }
    }
    if properties_match(&event.device.properties, config) {
        Some(event.device.devpath.clone())
    } else {
        None
    }
}

} // verus!
