//! The state of a ConnMan service.

use vstd::prelude::*;
use crate::text::str_eq;
use crate::wifi::error::WifiError;
use crate::wifi::model::address::{Ipv4Connection, Ipv6Connection};
use crate::wifi::model::{slice_text_of, text_of};

verus! {

/// The connection state that ConnMan reports of a service.
#[derive(Debug, Clone, Copy, PartialEq, Eq, Structural)]
pub enum ServiceStateKind {
    Idle,
    Association,
    Configuration,
    Ready,
    Online,
    Disconnect,
    Failure,
}

/// The state that a name of ConnMan stands for.
pub open spec fn state_named(name: Seq<char>) -> Option<ServiceStateKind> {
    if name == "idle"@ {
        Some(ServiceStateKind::Idle)
    } else if name == "association"@ {
        Some(ServiceStateKind::Association)
    } else if name == "configuration"@ {
        Some(ServiceStateKind::Configuration)
    } else if name == "ready"@ {
        Some(ServiceStateKind::Ready)
    } else if name == "online"@ {
        Some(ServiceStateKind::Online)
    } else if name == "disconnect"@ {
        Some(ServiceStateKind::Disconnect)
    } else if name == "failure"@ {
        Some(ServiceStateKind::Failure)
    } else {
        None
    }
}

impl ServiceStateKind {
    /// Reads the name of a state. A name that stands for no state is handed
    /// back in the error.
    pub fn try_from(value: &str) -> (r: Result<Self, WifiError>)
        ensures
            match r {
                Ok(state) => state_named(value@) == Some(state),
                Err(WifiError::InvalidServiceState(name)) => state_named(value@) is None && name@
                    == value@,
                Err(_) => false,
            },
    {
        if str_eq(value, "idle") {
            Ok(ServiceStateKind::Idle)
        } else if str_eq(value, "association") {
            Ok(ServiceStateKind::Association)
        } else if str_eq(value, "configuration") {
            Ok(ServiceStateKind::Configuration)
        } else if str_eq(value, "ready") {
            Ok(ServiceStateKind::Ready)
        } else if str_eq(value, "online") {
            Ok(ServiceStateKind::Online)
        } else if str_eq(value, "disconnect") {
            Ok(ServiceStateKind::Disconnect)
        } else if str_eq(value, "failure") {
            Ok(ServiceStateKind::Failure)
        } else {
            Err(WifiError::InvalidServiceState(value.to_owned()))
        }
    }
}

/// What ConnMan reports of one service.
#[derive(Debug, Clone)]
pub struct ServiceState {
    ssid: Option<String>,
    uid: String,
    state: ServiceStateKind,
    strength: Option<u8>,
    ipv4: Option<Ipv4Connection>,
    ipv6: Option<Ipv6Connection>,
}

/// What a service record holds.
pub struct ServiceStateView {
    pub ssid: Option<Seq<char>>,
    pub uid: Seq<char>,
    pub state: ServiceStateKind,
    pub strength: Option<u8>,
    pub ipv4: Option<Ipv4Connection>,
    pub ipv6: Option<Ipv6Connection>,
}

impl View for ServiceState {
    type V = ServiceStateView;

    closed spec fn view(&self) -> ServiceStateView {
        ServiceStateView {
            ssid: text_of(self.ssid),
            uid: self.uid@,
            state: self.state,
            strength: self.strength,
            ipv4: self.ipv4,
            ipv6: self.ipv6,
        }
    }
}

impl ServiceState {
    pub fn new(
        ssid: Option<String>,
        uid: String,
        state: ServiceStateKind,
        strength: Option<u8>,
        ipv4: Option<Ipv4Connection>,
        ipv6: Option<Ipv6Connection>,
    ) -> (service: Self)
        ensures
            service@ == (ServiceStateView {
                ssid: text_of(ssid),
                uid: uid@,
                state,
                strength,
                ipv4,
                ipv6,
            }),
    {
        ServiceState { ssid, uid, state, strength, ipv4, ipv6 }
    }

    pub fn ssid(&self) -> (ssid: Option<&str>)
        ensures
            slice_text_of(ssid) == self@.ssid,
    {
        match &self.ssid {
            Some(ssid) => Some(ssid.as_str()),
            None => None,
        }
    }

    pub fn uid(&self) -> (uid: &str)
        ensures
            uid@ == self@.uid,
    {
        self.uid.as_str()
    }

    pub fn state(&self) -> (state: ServiceStateKind)
        ensures
            state == self@.state,
    {
        self.state
    }

    pub fn strength(&self) -> (strength: Option<u8>)
        ensures
            strength == self@.strength,
    {
        self.strength
    }

    pub fn ipv4(&self) -> (ipv4: Option<&Ipv4Connection>)
        ensures
            ipv4 is Some <==> self@.ipv4 is Some,
            ipv4 is Some ==> *ipv4.unwrap() == self@.ipv4.unwrap(),
    {
        self.ipv4.as_ref()
    }

    pub fn ipv6(&self) -> (ipv6: Option<&Ipv6Connection>)
        ensures
            ipv6 is Some <==> self@.ipv6 is Some,
            ipv6 is Some ==> *ipv6.unwrap() == self@.ipv6.unwrap(),
    {
        self.ipv6.as_ref()
    }
}

} // verus!
