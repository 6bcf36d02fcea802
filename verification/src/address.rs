//! Network addresses as the core reads them: the family, and the dotted text of an
//! IPv4 address.

use crate::text::{decimal, push_decimal};
use vstd::prelude::*;

verus! {

/// An address of either family, held by its parts.
#[derive(Clone, Copy, Debug, PartialEq, Eq)]
pub enum IpAddress {
    /// The four octets of an IPv4 address, first octet first.
    V4([u8; 4]),
    /// The eight segments of an IPv6 address, first segment first.
    V6([u16; 8]),
}

/// The canonical text of the IPv4 address with these octets: four decimal numbers
/// with a dot between them.
pub open spec fn dotted(octets: Seq<u8>) -> Seq<char> {
    decimal(octets[0] as nat) + seq!['.'] + decimal(octets[1] as nat) + seq!['.'] + decimal(
        octets[2] as nat,
    ) + seq!['.'] + decimal(octets[3] as nat)
}

impl IpAddress {
    /// Whether this is an IPv4 address.
    pub open spec fn spec_is_ipv4(&self) -> bool {
        *self is V4
    }

    /// The canonical text of an IPv4 address; `None` for an IPv6 address.
    pub open spec fn spec_text(&self) -> Option<Seq<char>> {
        match *self {
            IpAddress::V4(octets) => Some(dotted(octets@)),
            IpAddress::V6(_) => None,
        }
    }

    /// Whether this is an IPv4 address.
    pub fn is_ipv4(&self) -> (yes: bool)
        ensures
            yes == self.spec_is_ipv4(),
    {
        match self {
            IpAddress::V4(_) => true,
            IpAddress::V6(_) => false,
        }
    }

    /// Whether this is an IPv6 address.
    pub fn is_ipv6(&self) -> (yes: bool)
        ensures
            yes == !self.spec_is_ipv4(),
    {
        !self.is_ipv4()
    }

    /// The canonical text of an IPv4 address; `None` for an IPv6 address.
    pub fn text(&self) -> (text: Option<String>)
        ensures
            text is Some == self.spec_is_ipv4(),
            text matches Some(t) ==> self.spec_text() == Some(t@),
    {
        match self {
            IpAddress::V4(octets) => {
                let mut out = String::new();
                proof {
                    reveal_strlit(".");
                }
                push_decimal(&mut out, octets[0] as u128);
                out.append(".");
                push_decimal(&mut out, octets[1] as u128);
                out.append(".");
                push_decimal(&mut out, octets[2] as u128);
                out.append(".");
                push_decimal(&mut out, octets[3] as u128);
                assert(out@ =~= dotted(octets@));
                Some(out)
            },
            IpAddress::V6(_) => None,
        }
    }
}

} // verus!
