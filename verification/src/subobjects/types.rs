//! The kinds of ERO sub-object.

use vstd::prelude::*;
use vstd::std_specs::convert::FromSpecImpl;
use crate::subobjects::prefix::Ipv4PrefixSubobject;
use crate::subobjects::sr::SrSubobject;

verus! {

/// An ERO sub-object by its 7-bit type: the decoded value for the types
/// that have a decoder, the bare kind for the others.
#[non_exhaustive]
#[derive(Debug, PartialEq, Eq, Clone, Copy, Structural)]
pub enum SubObjectTypes {
    Ipv4Prefix(Ipv4PrefixSubobject),
    Ipv6Prefix,
    Sr(SrSubobject),
    As,
    Unknown(u8),
}

impl SubObjectTypes {
    /// The kind of sub-object that the type code `value` names, with
    /// nothing decoded yet.
    pub open spec fn of_code(value: u8) -> SubObjectTypes {
        match value {
            1 => SubObjectTypes::Ipv4Prefix(Ipv4PrefixSubobject::spec_default()),
            2 => SubObjectTypes::Ipv6Prefix,
            32 => SubObjectTypes::As,
            36 => SubObjectTypes::Sr(SrSubobject::spec_default()),
            _ => SubObjectTypes::Unknown(value),
        }
    }
}

impl FromSpecImpl<u8> for SubObjectTypes {
    open spec fn obeys_from_spec() -> bool {
        true
    }

    open spec fn from_spec(value: u8) -> SubObjectTypes {
        SubObjectTypes::of_code(value)
    }
}

impl From<u8> for SubObjectTypes {
    /// The kind of sub-object that `value` names, as a sub-object of that
    /// kind with default contents.  Decoders dispatch on its variant.
    fn from(value: u8) -> (kind: SubObjectTypes) {
        match value {
            1 => SubObjectTypes::Ipv4Prefix(Ipv4PrefixSubobject::default()),
            2 => SubObjectTypes::Ipv6Prefix,
            32 => SubObjectTypes::As,
            36 => SubObjectTypes::Sr(SrSubobject::default()),
            _ => SubObjectTypes::Unknown(value),
        }
    }
}

} // verus!
