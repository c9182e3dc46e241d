//! The vocabulary of the interface listing of `ip -j address`.

use std::collections::BTreeSet;
use vstd::prelude::*;
use crate::text::starts_with;
use crate::wifi::model::address::{Ipv4Address, Ipv4Connection, Ipv6Address, Ipv6Connection};
use crate::wifi::model::{Gateway, InterfaceName, NetworkInterface, NetworkInterfaceView};

verus! {

#[derive(Debug, Clone, Copy, PartialEq, Eq, PartialOrd, Ord)]
pub enum AddressFamily {
    Inet,
    Inet6,
}

/// The operational state of an interface.
#[derive(Debug, Clone, Copy, PartialEq, Eq, Structural)]
pub enum OperState {
    Up,
    Down,
    Unknown,
    Dormant,
    Testing,
    LowerLayerDown,
    Other,
}

#[derive(Debug, Clone, Copy, PartialEq, Eq, Structural)]
pub enum LinkType {
    Ether,
    Loopback,
    Can,
    Dummy,
    Bridge,
    Vlan,
    Tun,
    Other,
}

#[derive(Debug, Clone, Copy, PartialEq, Eq, PartialOrd, Ord)]
pub enum InterfaceFlag {
    Up,
    Broadcast,
    Loopback,
    PointToPoint,
    Noarp,
    Dynamic,
    Multicast,
    LowerUp,
    Echo,
    Other,
}

#[derive(Debug, Clone, Copy, PartialEq, Eq, Structural)]
pub enum AddressScope {
    Host,
    Link,
    Global,
    Other,
}

/// The time an address stays valid, in seconds.
#[derive(Debug, Clone, Copy, PartialEq, Eq, Structural)]
pub struct Lifetime(pub u32);

impl Lifetime {
    /// The lifetime of an address that never expires.
    pub const FOREVER: u32 = u32::MAX;

    pub fn is_forever(self) -> (forever: bool)
        ensures
            forever == (self.0 == u32::MAX),
    {
        self.0 == Self::FOREVER
    }
}

/// An address of either protocol version.
#[derive(Debug, Clone, Copy, PartialEq, Eq)]
pub enum IpAddress {
    V4(Ipv4Address),
    V6(Ipv6Address),
}

/// One address of an interface.
#[derive(Debug, Clone)]
pub struct AddrInfo {
    pub family: AddressFamily,
    pub local: IpAddress,
    pub prefixlen: u8,
    pub broadcast: Option<IpAddress>,
    pub scope: AddressScope,
    pub label: Option<String>,
    pub valid_life_time: Lifetime,
    pub preferred_life_time: Lifetime,
}

/// One interface of the listing.
#[derive(Debug, Clone)]
pub struct Interface {
    pub ifindex: u32,
    pub ifname: String,
    pub flags: BTreeSet<InterfaceFlag>,
    pub mtu: u32,
    pub qdisc: String,
    pub operstate: OperState,
    pub group: String,
    pub txqlen: Option<u32>,
    pub link_type: LinkType,
    /// The hardware address, where the interface has one.
    pub address: Option<String>,
    pub broadcast: Option<String>,
    pub addr_info: Vec<AddrInfo>,
}

/// Whether an interface name is that of a device that the kernel or a
/// container runtime made up.
pub open spec fn is_virtual_name(name: Seq<char>) -> bool {
    ||| "docker"@.is_prefix_of(name)
    ||| "br-"@.is_prefix_of(name)
    ||| "veth"@.is_prefix_of(name)
    ||| "dummy"@.is_prefix_of(name)
    ||| "tun"@.is_prefix_of(name)
    ||| "tap"@.is_prefix_of(name)
    ||| "lo"@.is_prefix_of(name)
}

/// The IPv4 connections among the addresses of an interface, in their order;
/// the listing does not tell their gateways.
pub open spec fn ipv4_connections(infos: Seq<AddrInfo>) -> Seq<Ipv4Connection>
    decreases infos.len(),
{
    if infos.len() == 0 {
        Seq::empty()
    } else {
        let front = ipv4_connections(infos.drop_last());
        match infos.last().local {
            IpAddress::V4(v4) => front.push(
                Ipv4Connection::spec_new(v4, infos.last().prefixlen, Gateway::Unknown),
            ),
            IpAddress::V6(_) => front,
        }
    }
}

/// The IPv6 connections among the addresses of an interface, in their order.
pub open spec fn ipv6_connections(infos: Seq<AddrInfo>) -> Seq<Ipv6Connection>
    decreases infos.len(),
{
    if infos.len() == 0 {
        Seq::empty()
    } else {
        let front = ipv6_connections(infos.drop_last());
        match infos.last().local {
            IpAddress::V4(_) => front,
            IpAddress::V6(v6) => front.push(
                Ipv6Connection::spec_new(v6, infos.last().prefixlen, Gateway::Unknown),
            ),
        }
    }
}

impl Interface {
    /// Whether the interface is one that the service reports: an Ethernet or
    /// Wi-Fi device with a name and a hardware address that is no virtual
    /// device by its name.
    pub open spec fn is_managed(&self) -> bool {
        &&& self.ifname@.len() > 0
        &&& self.link_type == LinkType::Ether
        &&& self.address is Some
        &&& !is_virtual_name(self.ifname@)
    }

    /// The record of the interface for a status report, or nothing for an
    /// interface that is not reported.
    pub fn network_interface(&self) -> (r: Option<NetworkInterface>)
        ensures
            r is Some <==> self.is_managed(),
            r is Some ==> r.unwrap()@ == (NetworkInterfaceView {
                name: self.ifname@,
                ipv4: ipv4_connections(self.addr_info@),
                ipv6: ipv6_connections(self.addr_info@),
            }),
    {
        let ifname = match InterfaceName::new(self.ifname.clone()) {
            Ok(name) => name,
            Err(_) => return None,
        };
        match self.link_type {
            LinkType::Ether => {},
            _ => return None,
        }
        if self.address.is_none() {
            return None;
        }
        let name = self.ifname.as_str();
        if starts_with(name, "docker") || starts_with(name, "br-") || starts_with(name, "veth")
            || starts_with(name, "dummy") || starts_with(name, "tun") || starts_with(name, "tap")
            || starts_with(name, "lo") {
            return None;
        }
        let mut ipv4: Vec<Ipv4Connection> = Vec::new();
        let mut ipv6: Vec<Ipv6Connection> = Vec::new();
        let mut i: usize = 0;
        while i < self.addr_info.len()
            invariant
                i <= self.addr_info@.len(),
                ipv4@ == ipv4_connections(self.addr_info@.take(i as int)),
                ipv6@ == ipv6_connections(self.addr_info@.take(i as int)),
            decreases self.addr_info@.len() - i,
        {
            proof {
                let next = self.addr_info@.take(i + 1);
                assert(next.drop_last() =~= self.addr_info@.take(i as int));
                assert(next.last() == self.addr_info@[i as int]);
            }
            let info = &self.addr_info[i];
            match info.local {
                IpAddress::V4(v4) => {
                    ipv4.push(Ipv4Connection::new(v4, info.prefixlen, Gateway::Unknown));
                },
                IpAddress::V6(v6) => {
                    ipv6.push(Ipv6Connection::new(v6, info.prefixlen, Gateway::Unknown));
                },
            }
            i = i + 1;
        }
        assert(self.addr_info@.take(self.addr_info@.len() as int) =~= self.addr_info@);
        Some(NetworkInterface::new(ifname, ipv4, ipv6))
    }
}

} // verus!
