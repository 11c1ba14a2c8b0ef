//! The End-Points object.

use vstd::prelude::*;
use crate::common::Ipv4Addr;
use crate::error::DecodeError;
use crate::error::Decoded;
use crate::error::SpecDecoded;
use crate::error::yields;
use crate::objects::classes::ObjectClassType;
use crate::objects::header::CommonObject;
use crate::objects::types::EndpointsObjectType;

verus! {

/// The End-Points object: the two ends of the path that is asked for.
#[derive(Debug, PartialEq, Eq, Clone, Copy)]
pub struct EndPointsObject {
    pub common_object: CommonObject,
    pub end_points: EndPoints,
}

/// The ends of a path, by address family.
#[derive(Debug, PartialEq, Eq, Clone, Copy, Structural)]
pub enum EndPoints {
    Ipv4Addresses(Ipv4AddressesEndPoint),
}

/// A pair of IPv4 addresses: source, then destination.
#[derive(Debug, PartialEq, Eq, Clone, Copy, Structural)]
pub struct Ipv4AddressesEndPoint {
    pub source_ipv4: Ipv4Addr,
    pub destination_ipv4: Ipv4Addr,
}

impl EndPointsObject {
    /// The End-Points object at the front of `s`: the common header, which
    /// must name class End-Points and the type of IPv4 addresses, then the
    /// body that the header's length declares, which starts with the two
    /// addresses.
    #[verifier::opaque]
    pub open spec fn spec_parse_endpoints_object(s: Seq<u8>) -> SpecDecoded<EndPointsObject> {
        match CommonObject::spec_parse_common_object(s) {
            Err(e) => Err(e),
            Ok((after_header, header)) => {
                if header.object_class_type != ObjectClassType::EndPoints(
                    EndpointsObjectType::Ipv4Addresses,
                ) {
                    Err(DecodeError::Malformed)
                } else {
                    match header.spec_body_window(after_header) {
                        Err(e) => Err(e),
                        Ok((rest, body)) => match Ipv4AddressesEndPoint::spec_parse(body) {
                            Err(e) => Err(e),
                            Ok((_, addresses)) => Ok(
                                (
                                    rest,
                                    EndPointsObject {
                                        common_object: header,
                                        end_points: EndPoints::Ipv4Addresses(addresses),
                                    },
                                ),
                            ),
                        },
                    }
                }
            },
        }
    }

    /// Length accounting: whatever decodes as an End-Points object took from the
    /// input, header and body together, exactly the bytes that its header
    /// declares.
    pub proof fn lemma_length_accounting(s: Seq<u8>)
        ensures
            EndPointsObject::spec_parse_endpoints_object(s) matches Ok((rest, object))
                ==> object.common_object.accounts_for(s, rest),
    {
        reveal(EndPointsObject::spec_parse_endpoints_object);
    }

    /// Decodes an End-Points object and returns it with the bytes after
    /// the object.  End-Points objects of the other types have no decoder
    /// and are malformed here.
    pub fn parse_endpoints_object<'a>(input: &'a [u8]) -> (r: Decoded<'a, EndPointsObject>)
        ensures
            yields(r, EndPointsObject::spec_parse_endpoints_object(input@)),
            r matches Ok((rest, object)) ==> object.common_object.accounts_for(
                input@,
                rest@,
            ),
    {
        reveal(EndPointsObject::spec_parse_endpoints_object);
        let (remaining, common_obj) = CommonObject::parse_common_object(input)?;
        if let ObjectClassType::EndPoints(EndpointsObjectType::Ipv4Addresses) =
            common_obj.object_class_type {
            let (remaining, object_body) = common_obj.body_window(remaining)?;
            let (_object_body, ipv4_address_endpoints) =
                Ipv4AddressesEndPoint::parse_ipv4_addresses_endpoint(object_body)?;
            let endpoints_object = EndPointsObject {
                common_object: common_obj,
                end_points: EndPoints::Ipv4Addresses(ipv4_address_endpoints),
            };
            return Ok((remaining, endpoints_object));
        }
        Err(DecodeError::Malformed)
    }
}

impl Ipv4AddressesEndPoint {
    /// Source and destination address at the front of `s`.
    pub open spec fn spec_parse(s: Seq<u8>) -> SpecDecoded<
        Ipv4AddressesEndPoint,
    > {
        if s.len() < 8 {
            Err(DecodeError::Incomplete)
        } else {
            Ok(
                (
                    s.skip(8),
                    Ipv4AddressesEndPoint {
                        source_ipv4: Ipv4Addr::at(s, 0),
                        destination_ipv4: Ipv4Addr::at(s, 4),
                    },
                ),
            )
        }
    }

    /// Decodes a source and a destination address, four bytes each.
    pub fn parse_ipv4_addresses_endpoint<'a>(input: &'a [u8]) -> (r: Decoded<
        'a,
        Ipv4AddressesEndPoint,
    >)
        ensures
            yields(r, Ipv4AddressesEndPoint::spec_parse(input@)),
    {
        let (remaining, source_ipv4) = Ipv4Addr::parse(input)?;
        let (remaining, destination_ipv4) = Ipv4Addr::parse(remaining)?;
        assert(remaining@ == input@.skip(8));
        let ipv4_addresses_endpoints = Ipv4AddressesEndPoint { source_ipv4, destination_ipv4 };
        Ok((remaining, ipv4_addresses_endpoints))
    }
}

} // verus!
