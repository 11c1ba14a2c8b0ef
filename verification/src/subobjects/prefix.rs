//! The IPv4-prefix sub-object.

use vstd::prelude::*;
use crate::common::Ipv4Addr;
use crate::error::DecodeError;
use crate::error::Decoded;
use crate::error::SpecDecoded;
use crate::error::yields;
use crate::reader::be_u8;

verus! {

/// An IPv4 prefix as a hop of an explicit route.
#[derive(Debug, PartialEq, Eq, Clone, Copy, Structural)]
pub struct Ipv4PrefixSubobject {
    pub ipv4_addr: Ipv4Addr,
    pub pref_len: u8,
    pub reserved: u8,
}

impl Default for Ipv4PrefixSubobject {
    fn default() -> (prefix: Ipv4PrefixSubobject)
        ensures
            prefix == Ipv4PrefixSubobject::spec_default(),
    {
        Ipv4PrefixSubobject { ipv4_addr: Ipv4Addr::localhost(), pref_len: 32, reserved: 0 }
    }
}

impl Ipv4PrefixSubobject {
    /// The host prefix of the loopback address: the placeholder of a
    /// prefix that is not decoded yet.
    pub open spec fn spec_default() -> Ipv4PrefixSubobject {
        Ipv4PrefixSubobject { ipv4_addr: Ipv4Addr::spec_localhost(), pref_len: 32, reserved: 0 }
    }

    /// Address, prefix length and a reserved byte at the front of `s`.
    pub open spec fn spec_parse_ipv4_pref_subobject(s: Seq<u8>) -> SpecDecoded<
        Ipv4PrefixSubobject,
    > {
        if s.len() < 6 {
            Err(DecodeError::Incomplete)
        } else {
            Ok(
                (
                    s.skip(6),
                    Ipv4PrefixSubobject {
                        ipv4_addr: Ipv4Addr::at(s, 0),
                        pref_len: s[4],
                        reserved: s[5],
                    },
                ),
            )
        }
    }

    /// Decodes the value of an IPv4-prefix sub-object and returns it with
    /// the bytes after it.
    pub fn parse_ipv4_pref_subobject<'a>(input: &'a [u8]) -> (r: Decoded<'a, Ipv4PrefixSubobject>)
        ensures
            yields(r, Ipv4PrefixSubobject::spec_parse_ipv4_pref_subobject(input@)),
    {
        let (remaining, ipv4_addr) = Ipv4Addr::parse(input)?;
        let (remaining, prefix) = be_u8(remaining)?;
        let (remaining, reserved) = be_u8(remaining)?;
        assert(remaining@ == input@.skip(6));
        let ipv4_pref_subobject = Ipv4PrefixSubobject { ipv4_addr, pref_len: prefix, reserved };
        Ok((remaining, ipv4_pref_subobject))
    }
}

} // verus!
