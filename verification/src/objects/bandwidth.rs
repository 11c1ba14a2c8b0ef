//! The Bandwidth object.

use vstd::prelude::*;
use crate::common::Float32;
use crate::error::DecodeError;
use crate::error::Decoded;
use crate::error::SpecDecoded;
use crate::error::yields;
use crate::objects::classes::ObjectClassType;
use crate::objects::header::CommonObject;
use crate::objects::types::BandwidthObjectType;
use crate::reader::be32;
use crate::reader::be_u32;

verus! {

/// The Bandwidth object: one single-precision number, the bandwidth in
/// bytes per second.
#[derive(Debug, PartialEq, Eq, Clone, Copy)]
pub struct BandwidthObject {
    pub common_object: CommonObject,
    pub bandwidth: Float32,
}

impl BandwidthObject {
    /// Whether an object of this class and type is decoded as a Bandwidth
    /// object: the class must be Bandwidth, the type the requested
    /// bandwidth or the requested bandwidth of an existing LSP.
    pub open spec fn accepts(class_type: ObjectClassType) -> bool {
        class_type == ObjectClassType::Bandwidth(BandwidthObjectType::Requested) || class_type
            == ObjectClassType::Bandwidth(BandwidthObjectType::RequestedOpt)
    }

    /// The Bandwidth object at the front of `s`: the common header, which
    /// must name an accepted class and type, then the body that the
    /// header's length declares, which starts with the bandwidth.
    #[verifier::opaque]
    pub open spec fn spec_parse_bandwidth_object(s: Seq<u8>) -> SpecDecoded<BandwidthObject> {
        match CommonObject::spec_parse_common_object(s) {
            Err(e) => Err(e),
            Ok((after_header, header)) => {
                if !Self::accepts(header.object_class_type) {
                    Err(DecodeError::Malformed)
                } else {
                    match header.spec_body_window(after_header) {
                        Err(e) => Err(e),
                        Ok((rest, body)) => {
                            if body.len() < 4 {
                                Err(DecodeError::Incomplete)
                            } else {
                                Ok(
                                    (
                                        rest,
                                        BandwidthObject {
                                            common_object: header,
                                            bandwidth: Float32 { bits: be32(body, 0) as u32 },
                                        },
                                    ),
                                )
                            }
                        },
                    }
                }
            },
        }
    }

    /// Length accounting: whatever decodes as a Bandwidth object took from the
    /// input, header and body together, exactly the bytes that its header
    /// declares.
    pub proof fn lemma_length_accounting(s: Seq<u8>)
        ensures
            BandwidthObject::spec_parse_bandwidth_object(s) matches Ok((rest, object))
                ==> object.common_object.accounts_for(s, rest),
    {
        reveal(BandwidthObject::spec_parse_bandwidth_object);
    }

    /// Decodes a Bandwidth object and returns it with the bytes after the
    /// object.  Bandwidth objects of the other types have no decoder and
    /// are malformed here, as objects of any other class are.
    pub fn parse_bandwidth_object<'a>(input: &'a [u8]) -> (r: Decoded<'a, BandwidthObject>)
        ensures
            yields(r, BandwidthObject::spec_parse_bandwidth_object(input@)),
            r matches Ok((rest, object)) ==> object.common_object.accounts_for(
                input@,
                rest@,
            ),
    {
        reveal(BandwidthObject::spec_parse_bandwidth_object);
        let (remaining, cobj) = CommonObject::parse_common_object(input)?;
        match cobj.object_class_type {
            ObjectClassType::Bandwidth(obj_type) => match obj_type {
                BandwidthObjectType::Requested | BandwidthObjectType::RequestedOpt => {
                    let (remaining, object_body) = cobj.body_window(remaining)?;
                    let (_object_body, bandwidth) = be_u32(object_body)?;
                    let bandwidth_obj = BandwidthObject {
                        bandwidth: Float32 { bits: bandwidth },
                        common_object: cobj,
                    };
                    Ok((remaining, bandwidth_obj))
                },
                _ => Err(DecodeError::Malformed),
            },
            _ => Err(DecodeError::Malformed),
        }
    }
}

} // verus!
