use backend::wifi::connman::consts::{
    IP_ADDRESS, IP_GATEWAY, IP_PREFIX, PROP_IPV4, PROP_IPV6, PROP_NAME, PROP_STATE, PROP_STRENGTH,
};
use backend::wifi::connman::error::ConnManError;
use backend::wifi::connman::translation::{
    downcast_dict, get, get_ssid, get_string, get_u32, invalid, invalid_addr, invalid_type, missing, not_a_dict,
    parse_ipv4, parse_ipv4_dict, parse_ipv6, parse_ipv6_dict, parse_state, parse_strength,
    service_state_from_properties, DBusDict, DBusItem, DBusStr, DBusValue,
};
use backend::wifi::model::address::{Ipv4Address, Ipv6Address};
use backend::wifi::model::service::ServiceStateKind;
use backend::wifi::model::Gateway;

type Props = Vec<(String, DBusItem)>;

fn read_v4(s: &str) -> Option<Ipv4Address> {
    let parts: Vec<&str> = s.split('.').collect();
    if parts.len() != 4 {
        return None;
    }
    let mut octets = [0u8; 4];
    for (i, part) in parts.iter().enumerate() {
        if part.is_empty() || part.len() > 3 || !part.bytes().all(|b| b.is_ascii_digit()) {
            return None;
        }
        if part.len() > 1 && part.starts_with('0') {
            return None;
        }
        octets[i] = part.parse::<u8>().ok()?;
    }
    Some(Ipv4Address::new(octets[0], octets[1], octets[2], octets[3]))
}

fn read_v6(s: &str) -> Option<Ipv6Address> {
    match s {
        "fe80::1" => Some(Ipv6Address { segments: [0xfe80, 0, 0, 0, 0, 0, 0, 1] }),
        "fe80::ff" => Some(Ipv6Address { segments: [0xfe80, 0, 0, 0, 0, 0, 0, 0xff] }),
        _ => None,
    }
}

fn ovs(s: &str) -> DBusItem {
    DBusItem {
        shown: format!("OwnedValue(Str({:?}))", s),
        value: DBusValue::Str(DBusStr { text: s.to_string(), ipv4: read_v4(s), ipv6: read_v6(s) }),
    }
}

fn ov_u8(n: u8) -> DBusItem {
    DBusItem { shown: format!("OwnedValue(U8({}))", n), value: DBusValue::U8(n) }
}

fn ov_u32(n: u32) -> DBusItem {
    DBusItem { shown: format!("OwnedValue(U32({}))", n), value: DBusValue::U32(n) }
}

fn ov_dict(entries: Props) -> DBusItem {
    DBusItem {
        shown: "OwnedValue(Dict(..))".to_string(),
        value: DBusValue::Dict(DBusDict { entries, foreign_key: None }),
    }
}

fn empty_props() -> Props {
    Props::new()
}

fn insert(props: &mut Props, key: &str, value: DBusItem) {
    props.push((key.to_string(), value));
}

#[test]
fn connman_parses_valid_states() {
    let mut props = empty_props();
    insert(&mut props, PROP_STATE, ovs("online"));

    let state = parse_state(&props).unwrap();
    assert_eq!(state, ServiceStateKind::Online);
}

#[test]
fn connman_rejects_unknown_state() {
    let mut props = empty_props();
    insert(&mut props, PROP_STATE, ovs("nonsense"));

    let err = parse_state(&props).unwrap_err();
    let s = PROP_STATE.to_string();
    matches!(err, ConnManError::InvalidProperty(e) if e == s);
}

#[test]
fn connman_missing_state_is_error() {
    let props = empty_props();
    let err = parse_state(&props).unwrap_err();
    let s = PROP_STATE.to_string();
    matches!(err, ConnManError::MissingProperty(e) if e == s);
}

#[test]
fn connman_missing_strength_is_none() {
    let props = empty_props();
    assert_eq!(parse_strength(&props).unwrap(), None);
}

#[test]
fn connman_parses_strength() {
    let mut props = empty_props();
    insert(&mut props, PROP_STRENGTH, ov_u8(73u8));

    assert_eq!(parse_strength(&props).unwrap(), Some(73));
}

#[test]
fn connman_invalid_strength_type_is_error() {
    let mut props = empty_props();
    insert(&mut props, PROP_STRENGTH, ovs("loud"));

    let err = parse_strength(&props).unwrap_err();
    let s = PROP_STRENGTH.to_string();
    matches!(err, ConnManError::InvalidProperty(e) if e == s);
}

#[test]
fn connman_strength_above_100_is_preserved() {
    let mut props = empty_props();
    insert(&mut props, PROP_STATE, ovs("online"));
    insert(&mut props, PROP_STRENGTH, ov_u8(255u8));

    let state = service_state_from_properties("wifi0".into(), &props).unwrap();
    assert_eq!(state.strength(), Some(255));
}

#[test]
fn connman_missing_ipv4_block_is_none() {
    let props = empty_props();
    assert!(parse_ipv4(&props).unwrap().is_none());
}

#[test]
fn connman_invalid_ipv4_block_type_is_error() {
    let mut props = empty_props();
    insert(&mut props, PROP_IPV4, ovs("not a dict"));

    let err = parse_ipv4(&props).unwrap_err();
    let s = PROP_IPV4.to_string();
    matches!(err, ConnManError::InvalidProperty(e) if e == s);
}

#[test]
fn connman_invalid_ipv6_block_type_is_error() {
    let mut props = empty_props();
    insert(&mut props, PROP_IPV6, ov_u32(123u32));

    let err = parse_ipv6(&props).unwrap_err();
    let s = PROP_IPV6.to_string();
    matches!(err, ConnManError::InvalidProperty(e) if e == s);
}

#[test]
fn connman_parses_valid_ipv4_dict() {
    let mut dict = Props::new();
    insert(&mut dict, IP_ADDRESS, ovs("192.168.1.10"));
    insert(&mut dict, IP_GATEWAY, ovs("192.168.1.1"));
    insert(&mut dict, IP_PREFIX, ov_u32(24u32));

    let ipv4 = parse_ipv4_dict(&dict).unwrap();
    assert_eq!(ipv4.cidr(), "192.168.1.10/24");
    assert_eq!(ipv4.gateway(), Gateway::Known(Ipv4Address::new(192, 168, 1, 1)));
}

#[test]
fn connman_missing_address_is_error() {
    let mut dict = Props::new();
    insert(&mut dict, IP_PREFIX, ov_u32(24u32));

    let err = parse_ipv4_dict(&dict).unwrap_err();
    let s = IP_ADDRESS.to_string();
    matches!(err, ConnManError::MissingProperty(e) if e == s);
}

#[test]
fn connman_rejects_invalid_ipv4_address() {
    let mut dict = Props::new();
    insert(&mut dict, IP_ADDRESS, ovs("999.999.999.999"));
    insert(&mut dict, IP_GATEWAY, ovs("192.168.1.1"));
    insert(&mut dict, IP_PREFIX, ov_u32(24u32));

    let err = parse_ipv4_dict(&dict).unwrap_err();
    let s = IP_ADDRESS.to_string();
    matches!(err, ConnManError::InvalidAddress(e) if e == s);
}

#[test]
fn connman_rejects_invalid_gateway_address() {
    let mut dict = Props::new();
    insert(&mut dict, IP_ADDRESS, ovs("192.168.1.10"));
    insert(&mut dict, IP_GATEWAY, ovs("nope"));
    insert(&mut dict, IP_PREFIX, ov_u32(24u32));

    let err = parse_ipv4_dict(&dict).unwrap_err();
    let s = IP_GATEWAY.to_string();
    matches!(err, ConnManError::InvalidAddress(e) if e == s);
}

#[test]
fn connman_prefix_zero_is_allowed() {
    let mut dict = Props::new();
    insert(&mut dict, IP_ADDRESS, ovs("0.0.0.0"));
    insert(&mut dict, IP_GATEWAY, ovs("0.0.0.0"));
    insert(&mut dict, IP_PREFIX, ov_u32(0u32));

    let ipv4 = parse_ipv4_dict(&dict).unwrap();
    assert_eq!(ipv4.cidr(), "0.0.0.0/0");
}

#[test]
fn connman_parses_ipv6_without_gateway() {
    let mut dict = Props::new();
    insert(&mut dict, IP_ADDRESS, ovs("fe80::1"));
    insert(&mut dict, IP_PREFIX, ov_u32(64u32));

    let ipv6 = parse_ipv6_dict(&dict).unwrap();
    assert_eq!((ipv6.address(), ipv6.prefix()), (Ipv6Address { segments: [0xfe80, 0, 0, 0, 0, 0, 0, 1] }, 64));
    assert!(ipv6.gateway() == Gateway::Absent);
}

#[test]
fn connman_parses_ipv6_with_gateway() {
    let mut dict = Props::new();
    insert(&mut dict, IP_ADDRESS, ovs("fe80::1"));
    insert(&mut dict, IP_GATEWAY, ovs("fe80::ff"));
    insert(&mut dict, IP_PREFIX, ov_u32(64u32));

    let ipv6 = parse_ipv6_dict(&dict).unwrap();
    assert_eq!(ipv6.gateway(), Gateway::Known(Ipv6Address { segments: [0xfe80, 0, 0, 0, 0, 0, 0, 0xff] }));
}

#[test]
fn connman_rejects_invalid_ipv6_address() {
    let mut dict = Props::new();
    insert(&mut dict, IP_ADDRESS, ovs("this:is:garbage"));
    insert(&mut dict, IP_PREFIX, ov_u32(64u32));

    let err = parse_ipv6_dict(&dict).unwrap_err();
    let s = IP_ADDRESS.to_string();
    matches!(err, ConnManError::InvalidAddress(e) if e == s);
}

#[test]
fn connman_empty_gateway_is_error() {
    let mut dict = Props::new();
    insert(&mut dict, IP_ADDRESS, ovs("fe80::1"));
    insert(&mut dict, IP_GATEWAY, ovs(""));
    insert(&mut dict, IP_PREFIX, ov_u32(64u32));

    let err = parse_ipv6_dict(&dict).unwrap_err();
    let s = IP_GATEWAY.to_string();
    matches!(err, ConnManError::InvalidAddress(e) if e == s);
}

#[test]
fn connman_missing_prefix_is_error() {
    let mut dict = Props::new();
    insert(&mut dict, IP_ADDRESS, ovs("fe80::1"));

    let err = parse_ipv6_dict(&dict).unwrap_err();
    let s = IP_PREFIX.to_string();
    matches!(err, ConnManError::MissingProperty(e) if e == s);
}

#[test]
fn connman_downcasts_dictionary() {
    let mut inner = Props::new();
    insert(&mut inner, "Key", ovs("Value"));

    let value = ov_dict(inner);
    let dict = downcast_dict(&value, "Test").unwrap();

    assert!(get(dict, "Key").is_some());
}

#[test]
fn connman_rejects_non_dictionary() {
    let value = ovs("not a dict");
    let err = downcast_dict(&value, "Test").unwrap_err();
    let s = "Test".to_string();
    matches!(err, ConnManError::InvalidProperty(e) if e == s);
}

#[test]
fn connman_builds_minimal_service_state() {
    let mut props = empty_props();
    insert(&mut props, PROP_STATE, ovs("ready"));
    insert(&mut props, PROP_STRENGTH, ov_u8(55u8));

    let state = service_state_from_properties("wifi0".into(), &props).unwrap();

    assert_eq!(state.uid(), "wifi0");
    assert_eq!(state.state(), ServiceStateKind::Ready);
    assert_eq!(state.strength(), Some(55));
    assert!(state.ipv4().is_none());
    assert!(state.ipv6().is_none());
}

#[test]
fn connman_invalid_ipv4_does_not_hide_state_error() {
    let mut ipv4 = Props::new();
    insert(&mut ipv4, IP_ADDRESS, ovs("broken"));
    insert(&mut ipv4, IP_PREFIX, ov_u32(24u32));

    let mut props = empty_props();
    insert(&mut props, PROP_STATE, ovs("online"));
    insert(&mut props, PROP_IPV4, ov_dict(ipv4));

    let err = service_state_from_properties("wifi0".into(), &props).unwrap_err();
    let s = IP_ADDRESS.to_string();
    matches!(err, ConnManError::InvalidAddress(e) if e == s);
}

#[test]
fn connman_missing_strength_does_not_fail_service() {
    let mut props = empty_props();
    insert(&mut props, PROP_STATE, ovs("online"));

    let state = service_state_from_properties("wifi0".into(), &props).unwrap();
    assert_eq!(state.strength(), None);
}

#[test]
fn translation_parses_valid_states() {
    let mut props = empty_props();
    insert(&mut props, PROP_STATE, ovs("online"));

    let state = parse_state(&props).unwrap();
    assert_eq!(state, ServiceStateKind::Online);
}

#[test]
fn translation_rejects_unknown_state() {
    let mut props = empty_props();
    insert(&mut props, PROP_STATE, ovs("nonsense"));

    let err = parse_state(&props).unwrap_err();
    let s = PROP_STATE.to_string();
    matches!(err, ConnManError::InvalidProperty(e) if e == s);
}

#[test]
fn translation_missing_state_is_error() {
    let props = empty_props();
    let err = parse_state(&props).unwrap_err();
    let s = PROP_STATE.to_string();
    matches!(err, ConnManError::MissingProperty(e) if e == s);
}

#[test]
fn translation_missing_strength_is_none() {
    let props = empty_props();
    assert_eq!(parse_strength(&props).unwrap(), None);
}

#[test]
fn translation_parses_strength() {
    let mut props = empty_props();
    insert(&mut props, PROP_STRENGTH, ov_u8(73u8));

    assert_eq!(parse_strength(&props).unwrap(), Some(73));
}

#[test]
fn translation_invalid_strength_type_is_error() {
    let mut props = empty_props();
    insert(&mut props, PROP_STRENGTH, ovs("loud"));

    let err = parse_strength(&props).unwrap_err();
    let s = PROP_STRENGTH.to_string();
    matches!(err, ConnManError::InvalidProperty(e) if e == s);
}

#[test]
fn translation_strength_above_100_is_preserved() {
    let mut props = empty_props();
    insert(&mut props, PROP_STATE, ovs("online"));
    insert(&mut props, PROP_STRENGTH, ov_u8(255u8));

    let state = service_state_from_properties("wifi0".into(), &props).unwrap();
    assert_eq!(state.strength(), Some(255));
}

#[test]
fn translation_missing_ipv4_block_is_none() {
    let props = empty_props();
    assert!(parse_ipv4(&props).unwrap().is_none());
}

#[test]
fn translation_invalid_ipv4_block_type_is_error() {
    let mut props = empty_props();
    insert(&mut props, PROP_IPV4, ovs("not a dict"));

    let err = parse_ipv4(&props).unwrap_err();
    let s = PROP_IPV4.to_string();
    matches!(err, ConnManError::InvalidProperty(e) if e == s);
}

#[test]
fn translation_invalid_ipv6_block_type_is_error() {
    let mut props = empty_props();
    insert(&mut props, PROP_IPV6, ov_u32(123u32));

    let err = parse_ipv6(&props).unwrap_err();
    let s = PROP_IPV6.to_string();
    matches!(err, ConnManError::InvalidProperty(e) if e == s);
}

#[test]
fn translation_parses_valid_ipv4_dict() {
    let mut dict = Props::new();
    insert(&mut dict, IP_ADDRESS, ovs("192.168.1.10"));
    insert(&mut dict, IP_GATEWAY, ovs("192.168.1.1"));
    insert(&mut dict, IP_PREFIX, ov_u32(24u32));

    let ipv4 = parse_ipv4_dict(&dict).unwrap();
    assert_eq!(ipv4.cidr(), "192.168.1.10/24");
    assert_eq!(ipv4.gateway(), Gateway::Known(Ipv4Address::new(192, 168, 1, 1)));
}

#[test]
fn translation_missing_address_is_error() {
    let mut dict = Props::new();
    insert(&mut dict, IP_PREFIX, ov_u32(24u32));

    let err = parse_ipv4_dict(&dict).unwrap_err();
    let s = IP_ADDRESS.to_string();
    matches!(err, ConnManError::MissingProperty(e) if e == s);
}

#[test]
fn translation_rejects_invalid_ipv4_address() {
    let mut dict = Props::new();
    insert(&mut dict, IP_ADDRESS, ovs("999.999.999.999"));
    insert(&mut dict, IP_GATEWAY, ovs("192.168.1.1"));
    insert(&mut dict, IP_PREFIX, ov_u32(24u32));

    let err = parse_ipv4_dict(&dict).unwrap_err();
    let s = IP_ADDRESS.to_string();
    matches!(err, ConnManError::InvalidAddress(e) if e == s);
}

#[test]
fn translation_rejects_invalid_gateway_address() {
    let mut dict = Props::new();
    insert(&mut dict, IP_ADDRESS, ovs("192.168.1.10"));
    insert(&mut dict, IP_GATEWAY, ovs("nope"));
    insert(&mut dict, IP_PREFIX, ov_u32(24u32));

    let err = parse_ipv4_dict(&dict).unwrap_err();
    let s = IP_GATEWAY.to_string();
    matches!(err, ConnManError::InvalidAddress(e) if e == s);
}

#[test]
fn translation_prefix_zero_is_allowed() {
    let mut dict = Props::new();
    insert(&mut dict, IP_ADDRESS, ovs("0.0.0.0"));
    insert(&mut dict, IP_GATEWAY, ovs("0.0.0.0"));
    insert(&mut dict, IP_PREFIX, ov_u32(0u32));

    let ipv4 = parse_ipv4_dict(&dict).unwrap();
    assert_eq!(ipv4.cidr(), "0.0.0.0/0");
}

#[test]
fn translation_parses_ipv6_without_gateway() {
    let mut dict = Props::new();
    insert(&mut dict, IP_ADDRESS, ovs("fe80::1"));
    insert(&mut dict, IP_PREFIX, ov_u32(64u32));

    let ipv6 = parse_ipv6_dict(&dict).unwrap();
    assert_eq!((ipv6.address(), ipv6.prefix()), (Ipv6Address { segments: [0xfe80, 0, 0, 0, 0, 0, 0, 1] }, 64));
    assert!(ipv6.gateway() == Gateway::Absent);
}

#[test]
fn translation_parses_ipv6_with_gateway() {
    let mut dict = Props::new();
    insert(&mut dict, IP_ADDRESS, ovs("fe80::1"));
    insert(&mut dict, IP_GATEWAY, ovs("fe80::ff"));
    insert(&mut dict, IP_PREFIX, ov_u32(64u32));

    let ipv6 = parse_ipv6_dict(&dict).unwrap();
    assert_eq!(ipv6.gateway(), Gateway::Known(Ipv6Address { segments: [0xfe80, 0, 0, 0, 0, 0, 0, 0xff] }));
}

#[test]
fn translation_rejects_invalid_ipv6_address() {
    let mut dict = Props::new();
    insert(&mut dict, IP_ADDRESS, ovs("this:is:garbage"));
    insert(&mut dict, IP_PREFIX, ov_u32(64u32));

    let err = parse_ipv6_dict(&dict).unwrap_err();
    let s = IP_ADDRESS.to_string();
    matches!(err, ConnManError::InvalidAddress(e) if e == s);
}

#[test]
fn translation_empty_gateway_is_error() {
    let mut dict = Props::new();
    insert(&mut dict, IP_ADDRESS, ovs("fe80::1"));
    insert(&mut dict, IP_GATEWAY, ovs(""));
    insert(&mut dict, IP_PREFIX, ov_u32(64u32));

    let err = parse_ipv6_dict(&dict).unwrap_err();
    let s = IP_GATEWAY.to_string();
    matches!(err, ConnManError::InvalidAddress(e) if e == s);
}

#[test]
fn translation_missing_prefix_is_error() {
    let mut dict = Props::new();
    insert(&mut dict, IP_ADDRESS, ovs("fe80::1"));

    let err = parse_ipv6_dict(&dict).unwrap_err();
    let s = IP_PREFIX.to_string();
    matches!(err, ConnManError::MissingProperty(e) if e == s);
}

#[test]
fn translation_downcasts_dictionary() {
    let mut inner = Props::new();
    insert(&mut inner, "Key", ovs("Value"));

    let value = ov_dict(inner);
    let dict = downcast_dict(&value, "Test").unwrap();

    assert!(get(dict, "Key").is_some());
}

#[test]
fn translation_rejects_non_dictionary() {
    let value = ovs("not a dict");
    let err = downcast_dict(&value, "Test").unwrap_err();
    let s = "Test".to_string();
    matches!(err, ConnManError::InvalidProperty(e) if e == s);
}

#[test]
fn translation_builds_minimal_service_state() {
    let mut props = empty_props();
    insert(&mut props, PROP_STATE, ovs("ready"));
    insert(&mut props, PROP_STRENGTH, ov_u8(55u8));

    let state = service_state_from_properties("wifi0".into(), &props).unwrap();

    assert_eq!(state.uid(), "wifi0");
    assert_eq!(state.state(), ServiceStateKind::Ready);
    assert_eq!(state.strength(), Some(55));
    assert!(state.ipv4().is_none());
    assert!(state.ipv6().is_none());
}

#[test]
fn translation_invalid_ipv4_does_not_hide_state_error() {
    let mut ipv4 = Props::new();
    insert(&mut ipv4, IP_ADDRESS, ovs("broken"));
    insert(&mut ipv4, IP_PREFIX, ov_u32(24u32));

    let mut props = empty_props();
    insert(&mut props, PROP_STATE, ovs("online"));
    insert(&mut props, PROP_IPV4, ov_dict(ipv4));

    let err = service_state_from_properties("wifi0".into(), &props).unwrap_err();
    let s = IP_ADDRESS.to_string();
    matches!(err, ConnManError::InvalidAddress(e) if e == s);
}

#[test]
fn translation_missing_strength_does_not_fail_service() {
    let mut props = empty_props();
    insert(&mut props, PROP_STATE, ovs("online"));

    let state = service_state_from_properties("wifi0".into(), &props).unwrap();
    assert_eq!(state.strength(), None);
}

#[test]
fn error_details_are_exact() {
    assert_eq!(missing("State"), ConnManError::MissingProperty("Missing required property 'State'".into()));
    assert_eq!(
        invalid("State", "\"up\""),
        ConnManError::InvalidProperty("Invalid value for property 'State': \"up\"".into())
    );
    assert_eq!(
        invalid_type("props", "Prefix", "u32", "X"),
        ConnManError::InvalidProperty("Property 'props.Prefix' is not a u32, it is: X".into())
    );
    assert_eq!(
        invalid_addr("IPv4", "Address", "Some(X)"),
        ConnManError::InvalidProperty("Invalid address Some(X) in 'IPv4.Address'".into())
    );
    assert_eq!(not_a_dict("IPv4"), ConnManError::InvalidProperty("Property 'IPv4' is not a dictionary".into()));
    assert_eq!(missing("State").to_string(), "Missing property: Missing required property 'State'");
    assert_eq!(ConnManError::InvalidProperty("x".into()).to_string(), "Invalid property: x");
    assert_eq!(ConnManError::InvalidAddress("x".into()).to_string(), "Invalid address: x");
    assert_eq!(ConnManError::OperationFailed("x".into()).to_string(), "Operation failed: x");
    assert_eq!(ConnManError::NotFound("x".into()).to_string(), "Not found: x");
}

#[test]
fn state_errors_name_the_property() {
    let props = empty_props();
    assert_eq!(parse_state(&props), Err(missing("State")));
    let mut props = empty_props();
    insert(&mut props, PROP_STATE, ov_u8(1));
    assert_eq!(parse_state(&props), Err(invalid_type("props", "State", "String", "OwnedValue(U8(1))")));
    let mut props = empty_props();
    insert(&mut props, PROP_STATE, ovs("non\"sense"));
    assert_eq!(parse_state(&props), Err(invalid("State", "\"non\\\"sense\"")));
    let mut props = empty_props();
    insert(&mut props, PROP_STRENGTH, ovs("loud"));
    assert_eq!(parse_strength(&props), Err(invalid("Strength", "OwnedValue(Str(\"loud\"))")));
}

#[test]
fn later_entry_of_a_key_counts() {
    let mut props = empty_props();
    insert(&mut props, PROP_STATE, ovs("idle"));
    insert(&mut props, PROP_STATE, ovs("online"));
    assert_eq!(parse_state(&props), Ok(ServiceStateKind::Online));
    assert!(get(&props, "State").is_some());
    assert!(get(&props, "state").is_none());
}

#[test]
fn required_values_by_type() {
    let mut props = empty_props();
    insert(&mut props, "A", ovs("text"));
    insert(&mut props, "N", ov_u32(7));
    assert_eq!(get_string(&props, "A").unwrap().text, "text");
    assert_eq!(get_string(&props, "N").unwrap_err(), invalid_type("props", "N", "String", "OwnedValue(U32(7))"));
    assert_eq!(get_string(&props, "Z").unwrap_err(), missing("Z"));
    assert_eq!(get_u32(&props, "N"), Ok(7));
    assert_eq!(get_u32(&props, "A"), Err(invalid_type("props", "A", "u32", "OwnedValue(Str(\"text\"))")));
    assert_eq!(get_u32(&props, "Z"), Err(missing("Z")));
}

#[test]
fn ssid_is_read_where_it_is_a_string() {
    let mut props = empty_props();
    assert_eq!(get_ssid(&props), None);
    insert(&mut props, PROP_NAME, ov_u8(3));
    assert_eq!(get_ssid(&props), None);
    insert(&mut props, PROP_NAME, ovs("home"));
    assert_eq!(get_ssid(&props), Some("home".to_string()));
    insert(&mut props, PROP_STATE, ovs("idle"));
    let state = service_state_from_properties("wifi0".into(), &props).unwrap();
    assert_eq!(state.ssid(), Some("home"));
    assert_eq!(state.state(), ServiceStateKind::Idle);
}

#[test]
fn dictionary_with_a_foreign_key_is_refused() {
    let value = DBusItem {
        shown: "dict".into(),
        value: DBusValue::Dict(DBusDict { entries: Vec::new(), foreign_key: Some("U8(1)".into()) }),
    };
    assert_eq!(downcast_dict(&value, "IPv4").unwrap_err(), invalid_type("IPv4", "key", "String", "U8(1)"));
    assert_eq!(downcast_dict(&ov_u8(1), "IPv4").unwrap_err(), not_a_dict("IPv4"));
    let other = DBusItem { shown: "?".into(), value: DBusValue::Other };
    assert_eq!(downcast_dict(&other, "IPv6").unwrap_err(), not_a_dict("IPv6"));
}

#[test]
fn ipv4_errors_in_order() {
    let mut dict = Props::new();
    assert_eq!(parse_ipv4_dict(&dict).unwrap_err(), missing("Address"));
    insert(&mut dict, IP_ADDRESS, ovs("999.1.1.1"));
    assert_eq!(
        parse_ipv4_dict(&dict).unwrap_err(),
        invalid_addr("IPv4", "Address", "Some(OwnedValue(Str(\"999.1.1.1\")))")
    );
    insert(&mut dict, IP_ADDRESS, ovs("10.0.0.2"));
    assert_eq!(parse_ipv4_dict(&dict).unwrap_err(), missing("Gateway"));
    insert(&mut dict, IP_GATEWAY, ovs("nope"));
    assert_eq!(
        parse_ipv4_dict(&dict).unwrap_err(),
        invalid_addr("IPv4", "Gateway", "Some(OwnedValue(Str(\"nope\")))")
    );
    insert(&mut dict, IP_GATEWAY, ovs("10.0.0.1"));
    assert_eq!(parse_ipv4_dict(&dict).unwrap_err(), missing("Prefix"));
    insert(&mut dict, IP_PREFIX, ov_u8(8));
    assert_eq!(
        parse_ipv4_dict(&dict).unwrap_err(),
        invalid_type("props", "Prefix", "u32", "OwnedValue(U8(8))")
    );
    insert(&mut dict, IP_PREFIX, ov_u32(8));
    let ipv4 = parse_ipv4_dict(&dict).unwrap();
    assert_eq!(ipv4.address(), Ipv4Address::new(10, 0, 0, 2));
    assert_eq!(ipv4.prefix(), 8);
    assert_eq!(ipv4.gateway(), Gateway::Known(Ipv4Address::new(10, 0, 0, 1)));
}

#[test]
fn prefix_is_cut_to_a_byte() {
    let mut dict = Props::new();
    insert(&mut dict, IP_ADDRESS, ovs("10.0.0.2"));
    insert(&mut dict, IP_GATEWAY, ovs("10.0.0.1"));
    insert(&mut dict, IP_PREFIX, ov_u32(256 + 24));
    assert_eq!(parse_ipv4_dict(&dict).unwrap().prefix(), 24);
    insert(&mut dict, IP_PREFIX, ov_u32(u32::MAX));
    assert_eq!(parse_ipv4_dict(&dict).unwrap().prefix(), 255);
}

#[test]
fn ipv6_errors_in_order() {
    let mut dict = Props::new();
    insert(&mut dict, IP_GATEWAY, ov_u8(1));
    assert_eq!(parse_ipv6_dict(&dict).unwrap_err(), missing("Address"));
    insert(&mut dict, IP_ADDRESS, ovs("10.0.0.1"));
    assert_eq!(
        parse_ipv6_dict(&dict).unwrap_err(),
        invalid_addr("IPv6", "Address", "Some(OwnedValue(Str(\"10.0.0.1\")))")
    );
    insert(&mut dict, IP_ADDRESS, ovs("fe80::1"));
    assert_eq!(parse_ipv6_dict(&dict).unwrap_err(), missing("Prefix"));
    insert(&mut dict, IP_PREFIX, ov_u32(64));
    assert_eq!(
        parse_ipv6_dict(&dict).unwrap_err(),
        invalid_type("IPv6", "Gateway", "String", "OwnedValue(U8(1))")
    );
    insert(&mut dict, IP_GATEWAY, ovs(""));
    assert_eq!(parse_ipv6_dict(&dict).unwrap_err(), invalid_addr("IPv6", "Gateway", "\"\""));
    insert(&mut dict, IP_GATEWAY, ovs("gate"));
    assert_eq!(parse_ipv6_dict(&dict).unwrap_err(), invalid_addr("IPv6", "Gateway", "\"gate\""));
    insert(&mut dict, IP_GATEWAY, ovs("fe80::ff"));
    assert!(parse_ipv6_dict(&dict).is_ok());
}

#[test]
fn service_errors_in_order() {
    let mut bad4 = Props::new();
    insert(&mut bad4, IP_PREFIX, ov_u32(24));
    let mut props = empty_props();
    insert(&mut props, PROP_IPV6, ov_u8(1));
    insert(&mut props, PROP_IPV4, ov_dict(bad4));
    insert(&mut props, PROP_STRENGTH, ovs("loud"));
    assert_eq!(service_state_from_properties("w".into(), &props).unwrap_err(), missing("State"));
    insert(&mut props, PROP_STATE, ovs("online"));
    assert_eq!(
        service_state_from_properties("w".into(), &props).unwrap_err(),
        invalid("Strength", "OwnedValue(Str(\"loud\"))")
    );
    insert(&mut props, PROP_STRENGTH, ov_u8(40));
    assert_eq!(service_state_from_properties("w".into(), &props).unwrap_err(), missing("Address"));
    let mut good4 = Props::new();
    insert(&mut good4, IP_ADDRESS, ovs("192.168.1.10"));
    insert(&mut good4, IP_GATEWAY, ovs("192.168.1.1"));
    insert(&mut good4, IP_PREFIX, ov_u32(24));
    insert(&mut props, PROP_IPV4, ov_dict(good4));
    assert_eq!(service_state_from_properties("w".into(), &props).unwrap_err(), not_a_dict("IPv6"));
    let mut good6 = Props::new();
    insert(&mut good6, IP_ADDRESS, ovs("fe80::1"));
    insert(&mut good6, IP_PREFIX, ov_u32(64));
    insert(&mut props, PROP_IPV6, ov_dict(good6));
    let state = service_state_from_properties("w".into(), &props).unwrap();
    assert_eq!(state.uid(), "w");
    assert_eq!(state.ssid(), None);
    assert_eq!(state.strength(), Some(40));
    assert_eq!(state.ipv4().unwrap().cidr(), "192.168.1.10/24");
    assert_eq!(state.ipv6().unwrap().prefix(), 64);
    assert_eq!(state.ipv6().unwrap().gateway(), Gateway::Absent);
}
