//! Names that ConnMan uses on the bus.

use vstd::prelude::*;
use vstd::string::*;

verus! {

/// The name that the ConnMan daemon owns on the bus.
pub const CONNMAN_DEST: &'static str = "net.connman";

/// The object path of the manager.
pub const CONNMAN_MANAGER_PATH: &'static str = "/";

/// The interface of the manager.
pub const CONNMAN_MANAGER_IFACE: &'static str = "net.connman.Manager";

/// The interface of a service.
pub const CONNMAN_SERVICE_IFACE: &'static str = "net.connman.Service";

/// The interface of a technology.
pub const CONNMAN_TECH_IFACE: &'static str = "net.connman.Technology";

/// The object path of the Wi-Fi technology.
pub const CONNMAN_WIFI_TECH_PATH: &'static str = "/net/connman/technology/wifi";

/// What every object path of a service begins with.
pub const CONNMAN_SERVICE_PATH_PREFIX: &'static str = "/net/connman/service/";

pub const PROP_NAME: &'static str = "Name";

pub const PROP_STATE: &'static str = "State";

pub const PROP_STRENGTH: &'static str = "Strength";

pub const PROP_IPV4: &'static str = "IPv4";

pub const PROP_IPV6: &'static str = "IPv6";

pub const IP_ADDRESS: &'static str = "Address";

pub const IP_GATEWAY: &'static str = "Gateway";

pub const IP_PREFIX: &'static str = "Prefix";

/// The text of the object path of the service with the given suffix.
pub fn service_path_text(sufix: &str) -> (path: String)
    ensures
        path@ == CONNMAN_SERVICE_PATH_PREFIX@ + sufix@,
{
    let mut path = CONNMAN_SERVICE_PATH_PREFIX.to_owned();
    path.append(sufix);
    path
}

} // verus!
