//! Addresses of the Internet protocol as plain numbers, and the connection
//! of an interface: address, prefix length and gateway.

use vstd::prelude::*;
use vstd::string::*;
use crate::text::{append_decimal, decimal};
use crate::wifi::model::Gateway;

verus! {

/// An IPv4 address: its four octets, the first one first.
#[derive(Debug, Clone, Copy, PartialEq, Eq, Structural)]
pub struct Ipv4Address {
    pub a: u8,
    pub b: u8,
    pub c: u8,
    pub d: u8,
}

/// An IPv6 address: its eight 16-bit segments, the first one first.
#[derive(Debug, Clone, Copy, PartialEq, Eq)]
pub struct Ipv6Address {
    pub segments: [u16; 8],
}

/// The number of leading one bits of an octet that consists of one bits
/// followed by zero bits; nothing for any other octet.
pub open spec fn octet_prefix(octet: u8) -> Option<u8> {
    if octet == 0 {
        Some(0u8)
    } else if octet == 128 {
        Some(1u8)
    } else if octet == 192 {
        Some(2u8)
    } else if octet == 224 {
        Some(3u8)
    } else if octet == 240 {
        Some(4u8)
    } else if octet == 248 {
        Some(5u8)
    } else if octet == 252 {
        Some(6u8)
    } else if octet == 254 {
        Some(7u8)
    } else if octet == 255 {
        Some(8u8)
    } else {
        None
    }
}

/// The octet whose `ones` leading bits are one and whose other bits are
/// zero.
pub open spec fn ones_octet(ones: int) -> u8 {
    if ones <= 0 {
        0
    } else if ones == 1 {
        128
    } else if ones == 2 {
        192
    } else if ones == 3 {
        224
    } else if ones == 4 {
        240
    } else if ones == 5 {
        248
    } else if ones == 6 {
        252
    } else if ones == 7 {
        254
    } else {
        255
    }
}

/// The prefix length that a netmask stands for: the sum of the leading one
/// bits of its octets, where every octet consists of one bits followed by
/// zero bits.
pub open spec fn netmask_prefix(netmask: Ipv4Address) -> Option<u8> {
    match (
        octet_prefix(netmask.a),
        octet_prefix(netmask.b),
        octet_prefix(netmask.c),
        octet_prefix(netmask.d),
    ) {
        (Some(a), Some(b), Some(c), Some(d)) => Some((a + b + c + d) as u8),
        _ => None,
    }
}

/// The netmask of a prefix length of at most 32: that many one bits, then
/// zero bits.
pub open spec fn prefix_netmask(prefix: u8) -> Ipv4Address {
    Ipv4Address {
        a: ones_octet(prefix as int),
        b: ones_octet(prefix - 8),
        c: ones_octet(prefix - 16),
        d: ones_octet(prefix - 24),
    }
}

/// The dotted form of an address.
pub open spec fn dotted(address: Ipv4Address) -> Seq<char> {
    decimal(address.a as nat) + "."@ + decimal(address.b as nat) + "."@ + decimal(address.c as nat)
        + "."@ + decimal(address.d as nat)
}

/// Where the count of leading one bits stands while an octet is shifted
/// out: `ones` bits have left, all of them one, and `bits` holds the rest.
spec fn shifted_out(octet: u8, bits: u8, ones: u8) -> bool {
    &&& ones <= 8
    &&& octet >= ones_octet(ones as int)
    &&& ones == 0 ==> bits == octet
    &&& ones == 1 ==> bits == (octet - 128) * 2
    &&& ones == 2 ==> bits == (octet - 192) * 4
    &&& ones == 3 ==> bits == (octet - 224) * 8
    &&& ones == 4 ==> bits == (octet - 240) * 16
    &&& ones == 5 ==> bits == (octet - 248) * 32
    &&& ones == 6 ==> bits == (octet - 252) * 64
    &&& ones == 7 ==> bits == (octet - 254) * 128
    &&& ones == 8 ==> bits == 0
}

/// The leading one bits of an octet, counted by shifting them out.
fn leading_ones(octet: u8) -> (r: Option<u8>)
    ensures
        r == octet_prefix(octet),
{
    let mut bits: u8 = octet;
    let mut ones: u8 = 0;
    while bits & 0x80 != 0
        invariant
            shifted_out(octet, bits, ones),
        decreases 8 - ones,
    {
        assert(bits >= 128 && (bits << 1) == (bits - 128) * 2) by (bit_vector)
            requires
                bits & 0x80 != 0,
        ;
        ones = ones + 1;
        bits = bits << 1;
    }
    assert(bits < 128) by (bit_vector)
        requires
            bits & 0x80 == 0,
    ;
    if bits != 0 {
        None
    } else {
        Some(ones)
    }
}

impl Ipv4Address {
    pub fn new(a: u8, b: u8, c: u8, d: u8) -> (address: Self)
        ensures
            address == (Ipv4Address { a, b, c, d }),
    {
        Ipv4Address { a, b, c, d }
    }

    /// The address in dotted form.
    pub fn to_string(&self) -> (s: String)
        ensures
            s@ == dotted(*self),
    {
        let mut s = String::new();
        append_decimal(&mut s, self.a as u64);
        s.append(".");
        append_decimal(&mut s, self.b as u64);
        s.append(".");
        append_decimal(&mut s, self.c as u64);
        s.append(".");
        append_decimal(&mut s, self.d as u64);
        assert(s@ =~= dotted(*self));
        s
    }
}

/// A netmask that is not a run of one bits in each of its octets.
#[derive(Debug, Clone, Copy, PartialEq, Eq, Structural)]
pub struct InvalidNetmask {
    pub netmask: Ipv4Address,
}

impl InvalidNetmask {
    pub open spec fn message(self) -> Seq<char> {
        "Could not convert netmask "@ + dotted(self.netmask) + " to prefix"@
    }

    pub fn to_string(&self) -> (s: String)
        ensures
            s@ == self.message(),
    {
        let mut s = "Could not convert netmask ".to_owned();
        let netmask = self.netmask.to_string();
        s.append(netmask.as_str());
        s.append(" to prefix");
        s
    }
}

/// The IPv4 connection of an interface.
#[derive(Debug, Clone, Copy)]
pub struct Ipv4Connection {
    address: Ipv4Address,
    prefix: u8,
    gateway: Gateway<Ipv4Address>,
}

/// The IPv6 connection of an interface.
#[derive(Debug, Clone, Copy)]
pub struct Ipv6Connection {
    address: Ipv6Address,
    prefix: u8,
    gateway: Gateway<Ipv6Address>,
}

/// A netmask and the prefix length it stands for determine each other.
pub proof fn lemma_netmask_round_trip(prefix: u8)
    requires
        prefix <= 32,
    ensures
        netmask_prefix(prefix_netmask(prefix)) == Some(prefix),
{
}

impl Ipv4Connection {
    pub closed spec fn spec_address(&self) -> Ipv4Address {
        self.address
    }

    pub closed spec fn spec_prefix(&self) -> u8 {
        self.prefix
    }

    pub closed spec fn spec_gateway(&self) -> Gateway<Ipv4Address> {
        self.gateway
    }

    /// The address with its prefix length, as in `192.168.1.42/24`.
    pub open spec fn spec_cidr(&self) -> Seq<char> {
        dotted(self.address()) + "/"@ + decimal(self.prefix() as nat)
    }

    /// The connection that holds the given values.
    pub closed spec fn spec_new(address: Ipv4Address, prefix: u8, gateway: Gateway<Ipv4Address>) -> Self {
        Ipv4Connection { address, prefix, gateway }
    }

    pub fn new(address: Ipv4Address, prefix: u8, gateway: Gateway<Ipv4Address>) -> (connection: Self)
        ensures
            connection == Self::spec_new(address, prefix, gateway),
            connection.address() == address,
            connection.prefix() == prefix,
            connection.gateway() == gateway,
    {
        Ipv4Connection { address, prefix, gateway }
    }

    /// The connection with the prefix length that the netmask stands for. A
    /// netmask with an octet that is no run of one bits is refused.
    pub fn new_from_netmask(
        address: Ipv4Address,
        netmask: Ipv4Address,
        gateway: Gateway<Ipv4Address>,
    ) -> (r: Result<Self, InvalidNetmask>)
        ensures
            match r {
                Ok(connection) => netmask_prefix(netmask) == Some(connection.prefix())
                    && connection.address() == address && connection.gateway() == gateway,
                Err(e) => netmask_prefix(netmask) is None && e.netmask == netmask,
            },
    {
        match Self::netmask_to_prefix(netmask) {
            Ok(prefix) => Ok(Ipv4Connection { address, prefix, gateway }),
            Err(e) => Err(e),
        }
    }

    /// The prefix length that a netmask stands for.
    pub fn netmask_to_prefix(netmask: Ipv4Address) -> (r: Result<u8, InvalidNetmask>)
        ensures
            match r {
                Ok(prefix) => netmask_prefix(netmask) == Some(prefix),
                Err(e) => netmask_prefix(netmask) is None && e.netmask == netmask,
            },
    {
        let a = match leading_ones(netmask.a) {
            Some(ones) => ones,
            None => return Err(InvalidNetmask { netmask }),
        };
        let b = match leading_ones(netmask.b) {
            Some(ones) => ones,
            None => return Err(InvalidNetmask { netmask }),
        };
        let c = match leading_ones(netmask.c) {
            Some(ones) => ones,
            None => return Err(InvalidNetmask { netmask }),
        };
        let d = match leading_ones(netmask.d) {
            Some(ones) => ones,
            None => return Err(InvalidNetmask { netmask }),
        };
        Ok(a + b + c + d)
    }

    #[verifier::when_used_as_spec(spec_address)]
    pub fn address(&self) -> (address: Ipv4Address)
        ensures
            address == self.spec_address(),
    {
        self.address
    }

    #[verifier::when_used_as_spec(spec_prefix)]
    pub fn prefix(&self) -> (prefix: u8)
        ensures
            prefix == self.spec_prefix(),
    {
        self.prefix
    }

    #[verifier::when_used_as_spec(spec_gateway)]
    pub fn gateway(&self) -> (gateway: Gateway<Ipv4Address>)
        ensures
            gateway == self.spec_gateway(),
    {
        self.gateway
    }

    pub fn cidr(&self) -> (s: String)
        ensures
            s@ == self.spec_cidr(),
    {
        let mut s = self.address.to_string();
        s.append("/");
        append_decimal(&mut s, self.prefix as u64);
        assert(s@ =~= self.spec_cidr());
        s
    }

    /// The netmask of the connection's prefix length.
    pub fn netmask(&self) -> (mask: Ipv4Address)
        requires
            self.prefix() <= 32,
        ensures
            mask == prefix_netmask(self.prefix()),
    {
        if self.prefix == 0 {
            return Ipv4Address::new(0, 0, 0, 0);
        }
        let p: u32 = self.prefix as u32;
        let s: u32 = 32 - p;
        proof {
            assert({
                &&& p == 1 ==> (((0xFFFFFFFFu32 << s) >> 24u32) & 0xff) == 128
                &&& p == 2 ==> (((0xFFFFFFFFu32 << s) >> 24u32) & 0xff) == 192
                &&& p == 3 ==> (((0xFFFFFFFFu32 << s) >> 24u32) & 0xff) == 224
                &&& p == 4 ==> (((0xFFFFFFFFu32 << s) >> 24u32) & 0xff) == 240
                &&& p == 5 ==> (((0xFFFFFFFFu32 << s) >> 24u32) & 0xff) == 248
                &&& p == 6 ==> (((0xFFFFFFFFu32 << s) >> 24u32) & 0xff) == 252
                &&& p == 7 ==> (((0xFFFFFFFFu32 << s) >> 24u32) & 0xff) == 254
                &&& p >= 8 ==> (((0xFFFFFFFFu32 << s) >> 24u32) & 0xff) == 255
            }) by (bit_vector)
                requires
                    1 <= p <= 32,
                    s == 32 - p,
            ;
            assert({
                &&& p <= 8 ==> (((0xFFFFFFFFu32 << s) >> 16u32) & 0xff) == 0
                &&& p == 9 ==> (((0xFFFFFFFFu32 << s) >> 16u32) & 0xff) == 128
                &&& p == 10 ==> (((0xFFFFFFFFu32 << s) >> 16u32) & 0xff) == 192
                &&& p == 11 ==> (((0xFFFFFFFFu32 << s) >> 16u32) & 0xff) == 224
                &&& p == 12 ==> (((0xFFFFFFFFu32 << s) >> 16u32) & 0xff) == 240
                &&& p == 13 ==> (((0xFFFFFFFFu32 << s) >> 16u32) & 0xff) == 248
                &&& p == 14 ==> (((0xFFFFFFFFu32 << s) >> 16u32) & 0xff) == 252
                &&& p == 15 ==> (((0xFFFFFFFFu32 << s) >> 16u32) & 0xff) == 254
                &&& p >= 16 ==> (((0xFFFFFFFFu32 << s) >> 16u32) & 0xff) == 255
            }) by (bit_vector)
                requires
                    1 <= p <= 32,
                    s == 32 - p,
            ;
            assert({
                &&& p <= 16 ==> (((0xFFFFFFFFu32 << s) >> 8u32) & 0xff) == 0
                &&& p == 17 ==> (((0xFFFFFFFFu32 << s) >> 8u32) & 0xff) == 128
                &&& p == 18 ==> (((0xFFFFFFFFu32 << s) >> 8u32) & 0xff) == 192
                &&& p == 19 ==> (((0xFFFFFFFFu32 << s) >> 8u32) & 0xff) == 224
                &&& p == 20 ==> (((0xFFFFFFFFu32 << s) >> 8u32) & 0xff) == 240
                &&& p == 21 ==> (((0xFFFFFFFFu32 << s) >> 8u32) & 0xff) == 248
                &&& p == 22 ==> (((0xFFFFFFFFu32 << s) >> 8u32) & 0xff) == 252
                &&& p == 23 ==> (((0xFFFFFFFFu32 << s) >> 8u32) & 0xff) == 254
                &&& p >= 24 ==> (((0xFFFFFFFFu32 << s) >> 8u32) & 0xff) == 255
            }) by (bit_vector)
                requires
                    1 <= p <= 32,
                    s == 32 - p,
            ;
            assert({
                &&& p <= 24 ==> ((0xFFFFFFFFu32 << s) & 0xff) == 0
                &&& p == 25 ==> ((0xFFFFFFFFu32 << s) & 0xff) == 128
                &&& p == 26 ==> ((0xFFFFFFFFu32 << s) & 0xff) == 192
                &&& p == 27 ==> ((0xFFFFFFFFu32 << s) & 0xff) == 224
                &&& p == 28 ==> ((0xFFFFFFFFu32 << s) & 0xff) == 240
                &&& p == 29 ==> ((0xFFFFFFFFu32 << s) & 0xff) == 248
                &&& p == 30 ==> ((0xFFFFFFFFu32 << s) & 0xff) == 252
                &&& p == 31 ==> ((0xFFFFFFFFu32 << s) & 0xff) == 254
                &&& p >= 32 ==> ((0xFFFFFFFFu32 << s) & 0xff) == 255
            }) by (bit_vector)
                requires
                    1 <= p <= 32,
                    s == 32 - p,
            ;
        }
        let mask: u32 = u32::MAX << s;
        Ipv4Address {
            a: ((mask >> 24) & 0xff) as u8,
            b: ((mask >> 16) & 0xff) as u8,
            c: ((mask >> 8) & 0xff) as u8,
            d: (mask & 0xff) as u8,
        }
    }
}

impl Ipv6Connection {
    pub closed spec fn spec_address(&self) -> Ipv6Address {
        self.address
    }

    pub closed spec fn spec_prefix(&self) -> u8 {
        self.prefix
    }

    pub closed spec fn spec_gateway(&self) -> Gateway<Ipv6Address> {
        self.gateway
    }

    /// The connection that holds the given values.
    pub closed spec fn spec_new(address: Ipv6Address, prefix: u8, gateway: Gateway<Ipv6Address>) -> Self {
        Ipv6Connection { address, prefix, gateway }
    }

    pub fn new(address: Ipv6Address, prefix: u8, gateway: Gateway<Ipv6Address>) -> (connection: Self)
        ensures
            connection == Self::spec_new(address, prefix, gateway),
            connection.address() == address,
            connection.prefix() == prefix,
            connection.gateway() == gateway,
    {
        Ipv6Connection { address, prefix, gateway }
    }

    #[verifier::when_used_as_spec(spec_address)]
    pub fn address(&self) -> (address: Ipv6Address)
        ensures
            address == self.spec_address(),
    {
        self.address
    }

    #[verifier::when_used_as_spec(spec_prefix)]
    pub fn prefix(&self) -> (prefix: u8)
        ensures
            prefix == self.spec_prefix(),
    {
        self.prefix
    }

    #[verifier::when_used_as_spec(spec_gateway)]
    pub fn gateway(&self) -> (gateway: Gateway<Ipv6Address>)
        ensures
            gateway == self.spec_gateway(),
    {
        self.gateway
    }
}

} // verus!
