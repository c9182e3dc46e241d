//! Reading the properties of a ConnMan service.
//!
//! ConnMan describes a service by a dictionary from property names to values
//! of many types. The functions here read such a dictionary into a
//! `ServiceState`, and say of every property that is missing or of the wrong
//! type which one it is. They work on a plain picture of the dictionary that
//! the caller draws from what the bus delivered.

use vstd::prelude::*;
use vstd::string::*;
use crate::text::{debug_text, quoted};
use crate::text::str_eq;
use crate::wifi::connman::error::{ConnManError, ConnManErrorView};
use crate::wifi::model::address::{Ipv4Address, Ipv4Connection, Ipv6Address, Ipv6Connection};
use crate::wifi::model::service::{state_named, ServiceState, ServiceStateKind, ServiceStateView};
use crate::wifi::model::Gateway;

verus! {

/// A string of the bus, with its readings as an IPv4 and as an IPv6 address
/// where the text is one. The readings are those of the address parser of
/// the standard library; who draws the picture fills them in.
#[derive(Debug)]
pub struct DBusStr {
    pub text: String,
    pub ipv4: Option<Ipv4Address>,
    pub ipv6: Option<Ipv6Address>,
}

/// A dictionary of the bus: the entries whose keys are strings, in the order
/// of delivery, and the debug form of the first key that is no string, if
/// there is one. Of two entries with one key the later counts.
#[derive(Debug)]
pub struct DBusDict {
    pub entries: Vec<(String, DBusItem)>,
    pub foreign_key: Option<String>,
}

/// A value of the bus.
#[derive(Debug)]
pub enum DBusValue {
    Str(DBusStr),
    U8(u8),
    U32(u32),
    Dict(DBusDict),
    /// A value of any other type.
    Other,
}

/// A value of the bus together with its debug form, which error messages
/// quote.
#[derive(Debug)]
pub struct DBusItem {
    pub shown: String,
    pub value: DBusValue,
}

/// The detail of the error for a property that is not there.
pub open spec fn missing_detail(key: Seq<char>) -> Seq<char> {
    "Missing required property '"@ + key + "'"@
}

/// The detail of the error for a property with a value that cannot be used.
pub open spec fn invalid_detail(key: Seq<char>, shown: Seq<char>) -> Seq<char> {
    "Invalid value for property '"@ + key + "': "@ + shown
}

/// The detail of the error for a property of the wrong type.
pub open spec fn invalid_type_detail(
    parent: Seq<char>,
    key: Seq<char>,
    expected: Seq<char>,
    shown: Seq<char>,
) -> Seq<char> {
    "Property '"@ + parent + "."@ + key + "' is not a "@ + expected + ", it is: "@ + shown
}

/// The detail of the error for a text that is no address.
pub open spec fn invalid_addr_detail(parent: Seq<char>, key: Seq<char>, shown: Seq<char>) -> Seq<
    char,
> {
    "Invalid address "@ + shown + " in '"@ + parent + "."@ + key + "'"@
}

/// The detail of the error for a property that should be a dictionary.
pub open spec fn not_a_dict_detail(key: Seq<char>) -> Seq<char> {
    "Property '"@ + key + "' is not a dictionary"@
}

/// The debug form of a value that a lookup has found.
pub open spec fn found(shown: Seq<char>) -> Seq<char> {
    "Some("@ + shown + ")"@
}

pub fn missing(key: &str) -> (e: ConnManError)
    ensures
        e@ == ConnManErrorView::MissingProperty(missing_detail(key@)),
{
    let mut s = "Missing required property '".to_owned();
    s.append(key);
    s.append("'");
    ConnManError::MissingProperty(s)
}

pub fn invalid(key: &str, shown: &str) -> (e: ConnManError)
    ensures
        e@ == ConnManErrorView::InvalidProperty(invalid_detail(key@, shown@)),
{
    let mut s = "Invalid value for property '".to_owned();
    s.append(key);
    s.append("': ");
    s.append(shown);
    ConnManError::InvalidProperty(s)
}

pub fn invalid_type(parent: &str, key: &str, expected: &str, shown: &str) -> (e: ConnManError)
    ensures
        e@ == ConnManErrorView::InvalidProperty(
            invalid_type_detail(parent@, key@, expected@, shown@),
        ),
{
    let mut s = "Property '".to_owned();
    s.append(parent);
    s.append(".");
    s.append(key);
    s.append("' is not a ");
    s.append(expected);
    s.append(", it is: ");
    s.append(shown);
    ConnManError::InvalidProperty(s)
}

pub fn invalid_addr(parent: &str, key: &str, shown: &str) -> (e: ConnManError)
    ensures
        e@ == ConnManErrorView::InvalidProperty(invalid_addr_detail(parent@, key@, shown@)),
{
    let mut s = "Invalid address ".to_owned();
    s.append(shown);
    s.append(" in '");
    s.append(parent);
    s.append(".");
    s.append(key);
    s.append("'");
    ConnManError::InvalidProperty(s)
}

pub fn not_a_dict(key: &str) -> (e: ConnManError)
    ensures
        e@ == ConnManErrorView::InvalidProperty(not_a_dict_detail(key@)),
{
    let mut s = "Property '".to_owned();
    s.append(key);
    s.append("' is not a dictionary");
    ConnManError::InvalidProperty(s)
}

/// The debug form of a value that a lookup has found.
fn shown_found(shown: &str) -> (s: String)
    ensures
        s@ == found(shown@),
{
    let mut s = "Some(".to_owned();
    s.append(shown);
    s.append(")");
    s
}

/// The value of a property in a dictionary.
pub open spec fn lookup(props: Seq<(String, DBusItem)>, key: Seq<char>) -> Option<DBusItem>
    decreases props.len(),
{
    if props.len() == 0 {
        None
    } else if props.last().0@ == key {
        Some(props.last().1)
    } else {
        lookup(props.drop_last(), key)
    }
}

/// Whether a result is the one that a rule gives: the same value, or an
/// error of the same kind with the same detail.
pub open spec fn agrees<T>(r: Result<T, ConnManError>, rule: Result<T, ConnManErrorView>) -> bool {
    match (r, rule) {
        (Ok(a), Ok(b)) => a == b,
        (Err(e), Err(v)) => e@ == v,
        _ => false,
    }
}

/// The string that a required property holds.
pub open spec fn string_in(props: Seq<(String, DBusItem)>, key: Seq<char>) -> Result<
    DBusStr,
    ConnManErrorView,
> {
    match lookup(props, key) {
        None => Err(ConnManErrorView::MissingProperty(missing_detail(key))),
        Some(item) => match item.value {
            DBusValue::Str(s) => Ok(s),
            _ => Err(
                ConnManErrorView::InvalidProperty(
                    invalid_type_detail("props"@, key, "String"@, item.shown@),
                ),
            ),
        },
    }
}

/// The number that a required property holds.
pub open spec fn u32_in(props: Seq<(String, DBusItem)>, key: Seq<char>) -> Result<
    u32,
    ConnManErrorView,
> {
    match lookup(props, key) {
        None => Err(ConnManErrorView::MissingProperty(missing_detail(key))),
        Some(item) => match item.value {
            DBusValue::U32(n) => Ok(n),
            _ => Err(
                ConnManErrorView::InvalidProperty(
                    invalid_type_detail("props"@, key, "u32"@, item.shown@),
                ),
            ),
        },
    }
}

/// The state of the service: the property `State`, which must name a state.
pub open spec fn state_in(props: Seq<(String, DBusItem)>) -> Result<
    ServiceStateKind,
    ConnManErrorView,
> {
    match string_in(props, "State"@) {
        Err(e) => Err(e),
        Ok(raw) => match state_named(raw.text@) {
            Some(state) => Ok(state),
            None => Err(
                ConnManErrorView::InvalidProperty(invalid_detail("State"@, quoted(raw.text@))),
            ),
        },
    }
}

/// The signal strength: the property `Strength`, a byte where it is there.
pub open spec fn strength_in(props: Seq<(String, DBusItem)>) -> Result<
    Option<u8>,
    ConnManErrorView,
> {
    match lookup(props, "Strength"@) {
        None => Ok(None),
        Some(item) => match item.value {
            DBusValue::U8(n) => Ok(Some(n)),
            _ => Err(ConnManErrorView::InvalidProperty(invalid_detail("Strength"@, item.shown@))),
        },
    }
}

/// The name of the network: the property `Name` where it is a string.
pub open spec fn ssid_in(props: Seq<(String, DBusItem)>) -> Option<Seq<char>> {
    match lookup(props, "Name"@) {
        Some(item) => match item.value {
            DBusValue::Str(s) => Some(s.text@),
            _ => None,
        },
        None => None,
    }
}

/// The entries of a value that must be a dictionary with string keys.
pub open spec fn dict_of(item: DBusItem, name: Seq<char>) -> Result<
    Seq<(String, DBusItem)>,
    ConnManErrorView,
> {
    match item.value {
        DBusValue::Dict(dict) => match dict.foreign_key {
            None => Ok(dict.entries@),
            Some(key) => Err(
                ConnManErrorView::InvalidProperty(
                    invalid_type_detail(name, "key"@, "String"@, key@),
                ),
            ),
        },
        _ => Err(ConnManErrorView::InvalidProperty(not_a_dict_detail(name))),
    }
}

/// The prefix length that a number of 32 bits is cut to.
pub open spec fn prefix_of(number: u32) -> u8 {
    (number % 256) as u8
}

/// The IPv4 connection that a dictionary describes: `Address` and `Gateway`
/// must be addresses and `Prefix` a number; they are judged in this order.
pub open spec fn ipv4_of(dict: Seq<(String, DBusItem)>) -> Result<
    Ipv4Connection,
    ConnManErrorView,
> {
    match string_in(dict, "Address"@) {
        Err(e) => Err(e),
        Ok(address) => match address.ipv4 {
            None => Err(
                ConnManErrorView::InvalidProperty(
                    invalid_addr_detail(
                        "IPv4"@,
                        "Address"@,
                        found(lookup(dict, "Address"@).unwrap().shown@),
                    ),
                ),
            ),
            Some(address) => match string_in(dict, "Gateway"@) {
                Err(e) => Err(e),
                Ok(gateway) => match gateway.ipv4 {
                    None => Err(
                        ConnManErrorView::InvalidProperty(
                            invalid_addr_detail(
                                "IPv4"@,
                                "Gateway"@,
                                found(lookup(dict, "Gateway"@).unwrap().shown@),
                            ),
                        ),
                    ),
                    Some(gateway) => match u32_in(dict, "Prefix"@) {
                        Err(e) => Err(e),
                        Ok(prefix) => Ok(
                            Ipv4Connection::spec_new(
                                address,
                                prefix_of(prefix),
                                Gateway::Known(gateway),
                            ),
                        ),
                    },
                },
            },
        },
    }
}

/// The gateway that an IPv6 dictionary names: none where `Gateway` is not
/// there; otherwise `Gateway` must be a string, not empty, and an address.
pub open spec fn ipv6_gateway_of(dict: Seq<(String, DBusItem)>) -> Result<
    Gateway<Ipv6Address>,
    ConnManErrorView,
> {
    match lookup(dict, "Gateway"@) {
        None => Ok(Gateway::Absent),
        Some(item) => match item.value {
            DBusValue::Str(s) => match s.ipv6 {
                Some(gateway) if s.text@.len() > 0 => Ok(Gateway::Known(gateway)),
                _ => Err(
                    ConnManErrorView::InvalidProperty(
                        invalid_addr_detail("IPv6"@, "Gateway"@, quoted(s.text@)),
                    ),
                ),
            },
            _ => Err(
                ConnManErrorView::InvalidProperty(
                    invalid_type_detail("IPv6"@, "Gateway"@, "String"@, item.shown@),
                ),
            ),
        },
    }
}

/// The IPv6 connection that a dictionary describes: `Address` must be an
/// address and `Prefix` a number; `Gateway` may be missing. They are judged
/// in this order.
pub open spec fn ipv6_of(dict: Seq<(String, DBusItem)>) -> Result<
    Ipv6Connection,
    ConnManErrorView,
> {
    match string_in(dict, "Address"@) {
        Err(e) => Err(e),
        Ok(address) => match address.ipv6 {
            None => Err(
                ConnManErrorView::InvalidProperty(
                    invalid_addr_detail(
                        "IPv6"@,
                        "Address"@,
                        found(lookup(dict, "Address"@).unwrap().shown@),
                    ),
                ),
            ),
            Some(address) => match u32_in(dict, "Prefix"@) {
                Err(e) => Err(e),
                Ok(prefix) => match ipv6_gateway_of(dict) {
                    Err(e) => Err(e),
                    Ok(gateway) => Ok(
                        Ipv6Connection::spec_new(address, prefix_of(prefix), gateway),
                    ),
                },
            },
        },
    }
}

/// The IPv4 connection of the service: the property `IPv4`, a dictionary
/// where it is there.
pub open spec fn ipv4_in(props: Seq<(String, DBusItem)>) -> Result<
    Option<Ipv4Connection>,
    ConnManErrorView,
> {
    match lookup(props, "IPv4"@) {
        None => Ok(None),
        Some(item) => match dict_of(item, "IPv4"@) {
            Err(e) => Err(e),
            Ok(dict) => match ipv4_of(dict) {
                Err(e) => Err(e),
                Ok(connection) => Ok(Some(connection)),
            },
        },
    }
}

/// The IPv6 connection of the service: the property `IPv6`, a dictionary
/// where it is there.
pub open spec fn ipv6_in(props: Seq<(String, DBusItem)>) -> Result<
    Option<Ipv6Connection>,
    ConnManErrorView,
> {
    match lookup(props, "IPv6"@) {
        None => Ok(None),
        Some(item) => match dict_of(item, "IPv6"@) {
            Err(e) => Err(e),
            Ok(dict) => match ipv6_of(dict) {
                Err(e) => Err(e),
                Ok(connection) => Ok(Some(connection)),
            },
        },
    }
}

/// The state of a service as its properties describe it. The state, the
/// strength and the two connections are judged in this order, and the first
/// of them that is missing or wrong decides the error.
pub open spec fn service_state_of(wifi_uid: Seq<char>, props: Seq<(String, DBusItem)>) -> Result<
    ServiceStateView,
    ConnManErrorView,
> {
    match state_in(props) {
        Err(e) => Err(e),
        Ok(state) => match strength_in(props) {
            Err(e) => Err(e),
            Ok(strength) => match ipv4_in(props) {
                Err(e) => Err(e),
                Ok(ipv4) => match ipv6_in(props) {
                    Err(e) => Err(e),
                    Ok(ipv6) => Ok(
                        ServiceStateView {
                            ssid: ssid_in(props),
                            uid: wifi_uid,
                            state,
                            strength,
                            ipv4,
                            ipv6,
                        },
                    ),
                },
            },
        },
    }
}

/// Looks a property up.
pub fn get<'a>(props: &'a Vec<(String, DBusItem)>, key: &str) -> (r: Option<&'a DBusItem>)
    ensures
        match r {
            Some(item) => lookup(props@, key@) == Some(*item),
            None => lookup(props@, key@) is None,
        },
{
    let mut i: usize = props.len();
    assert(props@.take(i as int) =~= props@);
    while i > 0
        invariant
            i <= props@.len(),
            lookup(props@, key@) == lookup(props@.take(i as int), key@),
        decreases i,
    {
        proof {
            let part = props@.take(i as int);
            assert(part.drop_last() =~= props@.take(i - 1));
            assert(part.last() == props@[i - 1]);
        }
        i = i - 1;
        if str_eq(props[i].0.as_str(), key) {
            return Some(&props[i].1);
        }
    }
    None
}

/// The string of a required property.
pub fn get_string<'a>(props: &'a Vec<(String, DBusItem)>, key: &str) -> (r: Result<
    &'a DBusStr,
    ConnManError,
>)
    ensures
        match (r, string_in(props@, key@)) {
            (Ok(a), Ok(b)) => *a == b,
            (Err(e), Err(v)) => e@ == v,
            _ => false,
        },
{
    match get(props, key) {
        None => Err(missing(key)),
        Some(item) => match &item.value {
            DBusValue::Str(s) => Ok(s),
            _ => Err(invalid_type("props", key, "String", item.shown.as_str())),
        },
    }
}

/// The number of a required property.
pub fn get_u32(props: &Vec<(String, DBusItem)>, key: &str) -> (r: Result<u32, ConnManError>)
    ensures
        agrees(r, u32_in(props@, key@)),
{
    match get(props, key) {
        None => Err(missing(key)),
        Some(item) => match &item.value {
            DBusValue::U32(n) => Ok(*n),
            _ => Err(invalid_type("props", key, "u32", item.shown.as_str())),
        },
    }
}

/// The name of the network, where the properties hold one.
pub fn get_ssid(props: &Vec<(String, DBusItem)>) -> (ssid: Option<String>)
    ensures
        crate::wifi::model::text_of(ssid) == ssid_in(props@),
{
    match get(props, "Name") {
        Some(item) => match &item.value {
            DBusValue::Str(s) => Some(s.text.clone()),
            _ => None,
        },
        None => None,
    }
}

/// Reads the state of the service.
pub fn parse_state(props: &Vec<(String, DBusItem)>) -> (r: Result<ServiceStateKind, ConnManError>)
    ensures
        agrees(r, state_in(props@)),
{
    let raw = match get_string(props, "State") {
        Ok(raw) => raw,
        Err(e) => return Err(e),
    };
    match ServiceStateKind::try_from(raw.text.as_str()) {
        Ok(state) => Ok(state),
        Err(_) => {
            let shown = debug_text(raw.text.as_str());
            Err(invalid("State", shown.as_str()))
        },
    }
}

/// Reads the signal strength of the service. A strength above 100 is kept
/// as it is.
pub fn parse_strength(props: &Vec<(String, DBusItem)>) -> (r: Result<Option<u8>, ConnManError>)
    ensures
        agrees(r, strength_in(props@)),
{
    match get(props, "Strength") {
        None => Ok(None),
        Some(item) => match &item.value {
            DBusValue::U8(n) => Ok(Some(*n)),
            _ => Err(invalid("Strength", item.shown.as_str())),
        },
    }
}

/// The entries of a value that must be a dictionary.
pub fn downcast_dict<'a>(value: &'a DBusItem, name: &str) -> (r: Result<
    &'a Vec<(String, DBusItem)>,
    ConnManError,
>)
    ensures
        match (r, dict_of(*value, name@)) {
            (Ok(a), Ok(b)) => a@ == b,
            (Err(e), Err(v)) => e@ == v,
            _ => false,
        },
{
    match &value.value {
        DBusValue::Dict(dict) => match &dict.foreign_key {
            None => Ok(&dict.entries),
            Some(key) => Err(invalid_type(name, "key", "String", key.as_str())),
        },
        _ => Err(not_a_dict(name)),
    }
}

/// Reads an IPv4 connection from its dictionary.
pub fn parse_ipv4_dict(dict: &Vec<(String, DBusItem)>) -> (r: Result<Ipv4Connection, ConnManError>)
    ensures
        agrees(r, ipv4_of(dict@)),
{
    let address = match get_string(dict, "Address") {
        Err(e) => return Err(e),
        Ok(text) => match text.ipv4 {
            Some(address) => address,
            None => {
                let shown = shown_found(get(dict, "Address").unwrap().shown.as_str());
                return Err(invalid_addr("IPv4", "Address", shown.as_str()));
            },
        },
    };
    let gateway = match get_string(dict, "Gateway") {
        Err(e) => return Err(e),
        Ok(text) => match text.ipv4 {
            Some(gateway) => gateway,
            None => {
                let shown = shown_found(get(dict, "Gateway").unwrap().shown.as_str());
                return Err(invalid_addr("IPv4", "Gateway", shown.as_str()));
            },
        },
    };
    let prefix = match get_u32(dict, "Prefix") {
        Err(e) => return Err(e),
        Ok(n) => (n % 256) as u8,
    };
    Ok(Ipv4Connection::new(address, prefix, Gateway::Known(gateway)))
}

/// Reads an IPv6 connection from its dictionary.
pub fn parse_ipv6_dict(dict: &Vec<(String, DBusItem)>) -> (r: Result<Ipv6Connection, ConnManError>)
    ensures
        agrees(r, ipv6_of(dict@)),
{
    let address = match get_string(dict, "Address") {
        Err(e) => return Err(e),
        Ok(text) => match text.ipv6 {
            Some(address) => address,
            None => {
                let shown = shown_found(get(dict, "Address").unwrap().shown.as_str());
                return Err(invalid_addr("IPv6", "Address", shown.as_str()));
            },
        },
    };
    let prefix = match get_u32(dict, "Prefix") {
        Err(e) => return Err(e),
        Ok(n) => (n % 256) as u8,
    };
    let gateway = match get(dict, "Gateway") {
        None => Gateway::Absent,
        Some(item) => match &item.value {
            DBusValue::Str(s) => {
                if s.text.as_str().is_empty() {
                    let shown = debug_text(s.text.as_str());
                    return Err(invalid_addr("IPv6", "Gateway", shown.as_str()));
                }
                match s.ipv6 {
                    Some(gateway) => Gateway::Known(gateway),
                    None => {
                        let shown = debug_text(s.text.as_str());
                        return Err(invalid_addr("IPv6", "Gateway", shown.as_str()));
                    },
                }
            },
            _ => return Err(invalid_type("IPv6", "Gateway", "String", item.shown.as_str())),
        },
    };
    Ok(Ipv6Connection::new(address, prefix, gateway))
}

/// Reads the IPv4 connection of the service, where it has one.
pub fn parse_ipv4(props: &Vec<(String, DBusItem)>) -> (r: Result<
    Option<Ipv4Connection>,
    ConnManError,
>)
    ensures
        agrees(r, ipv4_in(props@)),
{
    let value = match get(props, "IPv4") {
        None => return Ok(None),
        Some(v) => v,
    };
    let dict = match downcast_dict(value, "IPv4") {
        Ok(dict) => dict,
        Err(e) => return Err(e),
    };
    match parse_ipv4_dict(dict) {
        Ok(connection) => Ok(Some(connection)),
        Err(e) => Err(e),
    }
}

/// Reads the IPv6 connection of the service, where it has one.
pub fn parse_ipv6(props: &Vec<(String, DBusItem)>) -> (r: Result<
    Option<Ipv6Connection>,
    ConnManError,
>)
    ensures
        agrees(r, ipv6_in(props@)),
{
    let value = match get(props, "IPv6") {
        None => return Ok(None),
        Some(v) => v,
    };
    let dict = match downcast_dict(value, "IPv6") {
        Ok(dict) => dict,
        Err(e) => return Err(e),
    };
    match parse_ipv6_dict(dict) {
        Ok(connection) => Ok(Some(connection)),
        Err(e) => Err(e),
    }
}

/// Reads the state of a service from its properties.
pub fn service_state_from_properties(wifi_uid: String, props: &Vec<(String, DBusItem)>) -> (r:
    Result<ServiceState, ConnManError>)
    ensures
        match (r, service_state_of(wifi_uid@, props@)) {
            (Ok(a), Ok(b)) => a@ == b,
            (Err(e), Err(v)) => e@ == v,
            _ => false,
        },
{
    let ssid = get_ssid(props);
    let state = match parse_state(props) {
        Ok(state) => state,
        Err(e) => return Err(e),
    };
    let strength = match parse_strength(props) {
        Ok(strength) => strength,
        Err(e) => return Err(e),
    };
    let ipv4 = match parse_ipv4(props) {
        Ok(ipv4) => ipv4,
        Err(e) => return Err(e),
    };
    let ipv6 = match parse_ipv6(props) {
        Ok(ipv6) => ipv6,
        Err(e) => return Err(e),
    };
    Ok(ServiceState::new(ssid, wifi_uid, state, strength, ipv4, ipv6))
}

} // verus!
