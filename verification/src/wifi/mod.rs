//! The data model of Wi-Fi management.

pub mod connman;
pub mod error;
pub mod model;

use vstd::prelude::*;

verus! {

/// How to join a network.
#[derive(Debug, Clone, PartialEq, Eq)]
pub enum WifiAuth {
    /// A network without protection.
    Open { ssid: String },
    /// A network protected by a pre-shared key.
    Psk { ssid: String, psk: String },
}

impl WifiAuth {
    /// The name of the network.
    pub open spec fn spec_ssid(&self) -> Seq<char> {
        match self {
            WifiAuth::Open { ssid } => ssid@,
            WifiAuth::Psk { ssid, .. } => ssid@,
        }
    }

    /// The key of a protected network.
    pub open spec fn spec_psk(&self) -> Option<Seq<char>> {
        match self {
            WifiAuth::Open { .. } => None,
            WifiAuth::Psk { psk, .. } => Some(psk@),
        }
    }

    pub fn ssid(&self) -> (name: Option<&str>)
        ensures
            name is Some,
            name.unwrap()@ == self.spec_ssid(),
    {
        match self {
            WifiAuth::Open { ssid } => Some(ssid.as_str()),
            WifiAuth::Psk { ssid, .. } => Some(ssid.as_str()),
        }
    }

    pub fn psk(&self) -> (key: Option<&str>)
        ensures
            key is Some <==> self.spec_psk() is Some,
            key is Some ==> key.unwrap()@ == self.spec_psk().unwrap(),
    {
        match self {
            WifiAuth::Open { .. } => None,
            WifiAuth::Psk { psk, .. } => Some(psk.as_str()),
        }
    }
}

} // verus!
