//! Networks, interfaces and connection states as the Wi-Fi layer reports
//! them.

pub mod address;
pub mod flags;
pub mod linux_ip_address;
pub mod service;

use vstd::prelude::*;
use vstd::string::*;
use crate::text::{parse_i32, parsed_i32, str_eq};
use crate::wifi::error::WifiError;
use crate::wifi::model::address::{Ipv4Connection, Ipv6Connection};
use crate::wifi::model::flags::{parsed_flags, WifiFlag, WifiFlagView, WifiFlags};
use crate::wifi::WifiAuth;

verus! {

/// The connection state of a network.
#[derive(Debug, Clone, Copy, PartialEq, Eq, Structural)]
pub enum WifiStatus {
    Idle,
    Association,
    Configuration,
    Ready,
    Online,
    Disconnect,
    Failure,
}

/// The state that a name stands for.
pub open spec fn status_named(name: Seq<char>) -> Option<WifiStatus> {
    if name == "idle"@ {
        Some(WifiStatus::Idle)
    } else if name == "association"@ {
        Some(WifiStatus::Association)
    } else if name == "configuration"@ {
        Some(WifiStatus::Configuration)
    } else if name == "ready"@ {
        Some(WifiStatus::Ready)
    } else if name == "online"@ {
        Some(WifiStatus::Online)
    } else if name == "disconnect"@ {
        Some(WifiStatus::Disconnect)
    } else if name == "failure"@ {
        Some(WifiStatus::Failure)
    } else {
        None
    }
}

impl WifiStatus {
    /// Reads the name of a state. A name that stands for no state is handed
    /// back in the error.
    pub fn try_from(value: &str) -> (r: Result<Self, WifiError>)
        ensures
            match r {
                Ok(status) => status_named(value@) == Some(status),
                Err(WifiError::InvalidServiceState(name)) => status_named(value@) is None
                    && name@ == value@,
                Err(_) => false,
            },
    {
        if str_eq(value, "idle") {
            Ok(WifiStatus::Idle)
        } else if str_eq(value, "association") {
            Ok(WifiStatus::Association)
        } else if str_eq(value, "configuration") {
            Ok(WifiStatus::Configuration)
        } else if str_eq(value, "ready") {
            Ok(WifiStatus::Ready)
        } else if str_eq(value, "online") {
            Ok(WifiStatus::Online)
        } else if str_eq(value, "disconnect") {
            Ok(WifiStatus::Disconnect)
        } else if str_eq(value, "failure") {
            Ok(WifiStatus::Failure)
        } else {
            Err(WifiError::InvalidServiceState(value.to_owned()))
        }
    }
}

/// The frequency band of a network.
#[derive(Debug, Clone, Copy, PartialEq, Eq, Structural)]
pub enum WifiBand {
    Band2G4Hz,
    Band5Ghz,
    Band6Ghz,
}

/// The band that a channel frequency in MHz lies in.
pub open spec fn band_of(freq: i32) -> Option<WifiBand> {
    if 2412 <= freq <= 2484 {
        Some(WifiBand::Band2G4Hz)
    } else if 5160 <= freq <= 5885 {
        Some(WifiBand::Band5Ghz)
    } else if 5925 <= freq <= 7125 {
        Some(WifiBand::Band6Ghz)
    } else {
        None
    }
}

impl WifiBand {
    pub fn from_freq(freq: i32) -> (band: Option<Self>)
        ensures
            band == band_of(freq),
    {
        if 2412 <= freq && freq <= 2484 {
            Some(WifiBand::Band2G4Hz)
        } else if 5160 <= freq && freq <= 5885 {
            Some(WifiBand::Band5Ghz)
        } else if 5925 <= freq && freq <= 7125 {
            Some(WifiBand::Band6Ghz)
        } else {
            None
        }
    }
}

/// A request to join a network: its name and, for a protected network, the
/// password.
#[derive(Debug, Clone)]
pub struct WifiConnectionPayload {
    ssid: String,
    password: Option<String>,
}

/// The text of an optional string.
pub open spec fn text_of(s: Option<String>) -> Option<Seq<char>> {
    match s {
        Some(s) => Some(s@),
        None => None,
    }
}

/// The text of an optional string slice.
pub open spec fn slice_text_of(s: Option<&str>) -> Option<Seq<char>> {
    match s {
        Some(s) => Some(s@),
        None => None,
    }
}

fn as_deref(s: &Option<String>) -> (r: Option<&str>)
    ensures
        slice_text_of(r) == text_of(*s),
{
    match s {
        Some(s) => Some(s.as_str()),
        None => None,
    }
}

impl WifiConnectionPayload {
    pub closed spec fn spec_ssid(&self) -> Seq<char> {
        self.ssid@
    }

    pub closed spec fn spec_password(&self) -> Option<Seq<char>> {
        text_of(self.password)
    }

    pub fn new(ssid: String, password: Option<String>) -> (payload: Self)
        ensures
            payload.spec_ssid() == ssid@,
            payload.spec_password() == text_of(password),
    {
        WifiConnectionPayload { ssid, password }
    }

    pub fn ssid(&self) -> (name: &str)
        ensures
            name@ == self.spec_ssid(),
    {
        self.ssid.as_str()
    }

    pub fn password(&self) -> (password: Option<&str>)
        ensures
            slice_text_of(password) == self.spec_password(),
    {
        as_deref(&self.password)
    }

    /// The way to join the requested network: with the password as key where
    /// there is one, as an open network where there is none.
    pub fn into_auth(self) -> (auth: WifiAuth)
        ensures
            auth.spec_ssid() == self.spec_ssid(),
            auth.spec_psk() == self.spec_password(),
    {
        match self.password {
            Some(password) => WifiAuth::Psk { ssid: self.ssid, psk: password },
            None => WifiAuth::Open { ssid: self.ssid },
        }
    }
}

/// The name of a network interface, such as `eth0` or `wlan0`. It is never
/// empty.
#[derive(Debug, PartialEq, Eq, PartialOrd, Ord)]
pub struct InterfaceName(String);

/// An interface name was asked for an empty text.
#[derive(Debug, Clone, Copy, PartialEq, Eq, Structural)]
pub struct EmptyInterfaceName;

impl EmptyInterfaceName {
    pub fn to_string(&self) -> (s: String)
        ensures
            s@ == "Interface name must not be empty"@,
    {
        "Interface name must not be empty".to_owned()
    }
}

impl View for InterfaceName {
    type V = Seq<char>;

    closed spec fn view(&self) -> Seq<char> {
        self.0@
    }
}

impl Clone for InterfaceName {
    fn clone(&self) -> (copy: Self)
        ensures
            copy@ == self@,
    {
        proof {
            use_type_invariant(self);
        }
        InterfaceName(self.0.clone())
    }
}

impl InterfaceName {
    #[verifier::type_invariant]
    spec fn not_empty(&self) -> bool {
        self.0@.len() > 0
    }

    /// The interface name with the given text; an empty text is refused.
    pub fn new(name: String) -> (r: Result<Self, EmptyInterfaceName>)
        ensures
            name@.len() == 0 <==> r is Err,
            r is Ok ==> r.unwrap()@ == name@,
    {
        if name.as_str().is_empty() {
            Err(EmptyInterfaceName)
        } else {
            Ok(InterfaceName(name))
        }
    }

    pub fn as_str(&self) -> (name: &str)
        ensures
            name@ == self@,
            name@.len() > 0,
    {
        proof {
            use_type_invariant(self);
        }
        self.0.as_str()
    }

    pub fn to_string(&self) -> (name: String)
        ensures
            name@ == self@,
    {
        self.0.clone()
    }
}

/// What is known of the gateway of a connection.
#[derive(Debug, Clone, Copy, PartialEq, Eq)]
pub enum Gateway<T> {
    /// The connection has no gateway.
    Absent,
    /// The gateway is the given address.
    Known(T),
    /// Whether there is a gateway has not been found out.
    Unknown,
}

/// A network that a scan has found.
#[derive(Debug, Clone)]
pub struct WifiNetwork {
    ssid: Option<String>,
    bssid: Option<String>,
    state: WifiStatus,
    strength: Option<i32>,
    band: Option<WifiBand>,
    flags: WifiFlags,
    interface: Option<InterfaceName>,
}

/// What a network record holds.
pub struct WifiNetworkView {
    pub ssid: Option<Seq<char>>,
    pub bssid: Option<Seq<char>>,
    pub state: WifiStatus,
    pub strength: Option<i32>,
    pub band: Option<WifiBand>,
    pub flags: Set<WifiFlagView>,
    pub interface: Option<Seq<char>>,
}

/// The text of an optional interface name.
pub open spec fn name_of(name: Option<InterfaceName>) -> Option<Seq<char>> {
    match name {
        Some(name) => Some(name@),
        None => None,
    }
}

impl View for WifiNetwork {
    type V = WifiNetworkView;

    closed spec fn view(&self) -> WifiNetworkView {
        WifiNetworkView {
            ssid: text_of(self.ssid),
            bssid: text_of(self.bssid),
            state: self.state,
            strength: self.strength,
            band: self.band,
            flags: self.flags@,
            interface: name_of(self.interface),
        }
    }
}

impl WifiNetwork {
    pub fn new(
        ssid: Option<String>,
        bssid: Option<String>,
        state: WifiStatus,
        strength: Option<i32>,
        band: Option<WifiBand>,
        flags: WifiFlags,
        interface: Option<InterfaceName>,
    ) -> (network: Self)
        ensures
            network@ == (WifiNetworkView {
                ssid: text_of(ssid),
                bssid: text_of(bssid),
                state,
                strength,
                band,
                flags: flags@,
                interface: name_of(interface),
            }),
    {
        WifiNetwork { ssid, bssid, state, strength, band, flags, interface }
    }

    /// The network of one line of a scan of wpa_supplicant: idle, on no
    /// interface, in the band of its frequency where the frequency is a
    /// number of a known band, with the flags that the line announces.
    pub fn from_scan(name: String, mac: String, signal: i32, frequency: &str, flags: &str) -> (network:
        Self)
        ensures
            network@ == (WifiNetworkView {
                ssid: Some(name@),
                bssid: Some(mac@),
                state: WifiStatus::Idle,
                strength: Some(signal),
                band: match parsed_i32(frequency@) {
                    Some(freq) => band_of(freq),
                    None => None,
                },
                flags: parsed_flags(flags@),
                interface: None,
            }),
    {
        WifiNetwork {
            ssid: Some(name),
            bssid: Some(mac),
            state: WifiStatus::Idle,
            strength: Some(signal),
            band: match parse_i32(frequency) {
                Some(freq) => WifiBand::from_freq(freq),
                None => None,
            },
            flags: WifiFlag::parse_wifi_flags(flags),
            interface: None,
        }
    }

    pub fn ssid(&self) -> (ssid: Option<&str>)
        ensures
            slice_text_of(ssid) == self@.ssid,
    {
        as_deref(&self.ssid)
    }

    pub fn bssid(&self) -> (bssid: Option<&str>)
        ensures
            slice_text_of(bssid) == self@.bssid,
    {
        as_deref(&self.bssid)
    }

    pub fn state(&self) -> (state: WifiStatus)
        ensures
            state == self@.state,
    {
        self.state
    }

    pub fn strength(&self) -> (strength: Option<i32>)
        ensures
            strength == self@.strength,
    {
        self.strength
    }

    pub fn band(&self) -> (band: Option<WifiBand>)
        ensures
            band == self@.band,
    {
        self.band
    }

    pub fn flags(&self) -> (flags: &WifiFlags)
        ensures
            flags@ == self@.flags,
    {
        &self.flags
    }

    pub fn interface(&self) -> (interface: Option<&InterfaceName>)
        ensures
            interface is Some <==> self@.interface is Some,
            interface is Some ==> interface.unwrap()@ == self@.interface.unwrap(),
    {
        self.interface.as_ref()
    }

    /// Marks the network as the one in use.
    pub fn set_online(&mut self)
        ensures
            final(self)@ == (WifiNetworkView { state: WifiStatus::Online, ..old(self)@ }),
    {
        self.state = WifiStatus::Online;
    }

    /// Whether the network is served by the access point with the given
    /// address.
    pub fn has_bssid(&self, bssid: &str) -> (same: bool)
        ensures
            same == (self@.bssid == Some(bssid@)),
    {
        match &self.bssid {
            Some(own) => str_eq(own.as_str(), bssid),
            None => false,
        }
    }
}

/// A network as it is listed once the access point in use is known: online
/// where that access point serves it, unchanged otherwise.
pub open spec fn with_active(network: WifiNetworkView, active_bssid: Seq<char>) -> WifiNetworkView {
    if network.bssid == Some(active_bssid) {
        WifiNetworkView { state: WifiStatus::Online, ..network }
    } else {
        network
    }
}

/// Marks the networks that the access point in use serves as online.
pub fn mark_online(networks: &mut Vec<WifiNetwork>, active_bssid: &str)
    ensures
        final(networks)@.len() == old(networks)@.len(),
        forall|i: int|
            0 <= i < old(networks)@.len() ==> (#[trigger] final(networks)@[i])@ == with_active(
                old(networks)@[i]@,
                active_bssid@,
            ),
{
    let mut i: usize = 0;
    while i < networks.len()
        invariant
            networks@.len() == old(networks)@.len(),
            i <= networks@.len(),
            forall|j: int|
                0 <= j < i ==> (#[trigger] networks@[j])@ == with_active(
                    old(networks)@[j]@,
                    active_bssid@,
                ),
            forall|j: int| i <= j < networks@.len() ==> networks@[j] == old(networks)@[j],
        decreases networks@.len() - i,
    {
        if networks[i].has_bssid(active_bssid) {
            networks[i].set_online();
        }
        i = i + 1;
    }
}

/// An interface with its connections.
#[derive(Debug, Clone)]
pub struct NetworkInterface {
    name: InterfaceName,
    ipv4: Vec<Ipv4Connection>,
    ipv6: Vec<Ipv6Connection>,
}

/// What an interface record holds.
pub struct NetworkInterfaceView {
    pub name: Seq<char>,
    pub ipv4: Seq<Ipv4Connection>,
    pub ipv6: Seq<Ipv6Connection>,
}

impl View for NetworkInterface {
    type V = NetworkInterfaceView;

    closed spec fn view(&self) -> NetworkInterfaceView {
        NetworkInterfaceView { name: self.name@, ipv4: self.ipv4@, ipv6: self.ipv6@ }
    }
}

impl NetworkInterface {
    pub fn new(name: InterfaceName, ipv4: Vec<Ipv4Connection>, ipv6: Vec<Ipv6Connection>) -> (interface:
        Self)
        ensures
            interface@ == (NetworkInterfaceView { name: name@, ipv4: ipv4@, ipv6: ipv6@ }),
    {
        NetworkInterface { name, ipv4, ipv6 }
    }

    pub fn name(&self) -> (name: &InterfaceName)
        ensures
            name@ == self@.name,
    {
        &self.name
    }

    pub fn ipv4(&self) -> (connections: &Vec<Ipv4Connection>)
        ensures
            connections@ == self@.ipv4,
    {
        &self.ipv4
    }

    pub fn ipv6(&self) -> (connections: &Vec<Ipv6Connection>)
        ensures
            connections@ == self@.ipv6,
    {
        &self.ipv6
    }
}

} // verus!
