//! The Metric object.

use vstd::prelude::*;
use vstd::arithmetic::power2::lemma2_to64;
use vstd::std_specs::convert::FromSpecImpl;
use crate::common::Float32;
use crate::error::DecodeError;
use crate::error::Decoded;
use crate::error::SpecDecoded;
use crate::error::yields;
use crate::objects::classes::ObjectClassType;
use crate::objects::header::CommonObject;
use crate::objects::types::MetricObjectType;
use crate::reader::be16;
use crate::reader::be32;
use crate::reader::be_u16;
use crate::reader::be_u32;
use crate::reader::be_u8;
use crate::reader::bit_field;
use crate::reader::prefix_value;
use crate::reader::take;
use crate::reader::take_bits;

verus! {

/// What a metric measures.
#[derive(Debug, PartialEq, Eq, Clone, Copy, Structural)]
pub enum MetricType {
    Igp,
    Te,
    HopCount,
    SidDepth,
    PathDelay,
    Unknown(u8),
}

impl MetricType {
    /// The metric type that `value` names.
    pub open spec fn of_code(value: u8) -> MetricType {
        match value {
            1 => MetricType::Igp,
            2 => MetricType::Te,
            3 => MetricType::HopCount,
            11 => MetricType::SidDepth,
            12 => MetricType::PathDelay,
            _ => MetricType::Unknown(value),
        }
    }
}

impl FromSpecImpl<u8> for MetricType {
    open spec fn obeys_from_spec() -> bool {
        true
    }

    open spec fn from_spec(value: u8) -> MetricType {
        MetricType::of_code(value)
    }
}

impl From<u8> for MetricType {
    /// The metric type that `value` names; a value that names none is kept
    /// in `Unknown`.
    fn from(value: u8) -> (metric_type: MetricType) {
        match value {
            1 => MetricType::Igp,
            2 => MetricType::Te,
            3 => MetricType::HopCount,
            11 => MetricType::SidDepth,
            12 => MetricType::PathDelay,
            _ => MetricType::Unknown(value),
        }
    }
}

/// The Metric object: a metric type, its value, and whether the value is
/// to be computed and whether it is a bound.
#[derive(Debug, PartialEq, Eq, Clone, Copy)]
pub struct MetricObject {
    pub common_object: CommonObject,
    pub reserved: u16,
    pub flag_compute: bool,
    pub flag_bound: bool,
    pub metric_type: MetricType,
    pub metric_value: Float32,
}

impl MetricObject {
    /// The three fields packed into the first byte of `s`: six reserved
    /// bits, the compute bit and the bound bit.
    pub open spec fn spec_parse_res_flag_c_b(s: Seq<u8>) -> SpecDecoded<(u8, u8, u8)> {
        if s.len() < 1 {
            Err(DecodeError::Incomplete)
        } else {
            Ok((s.skip(1), ((s[0] / 4) as u8, ((s[0] / 2) % 2) as u8, (s[0] % 2) as u8)))
        }
    }

    /// The Metric object at the front of `s`: the common header, which must
    /// name class Metric and type Metric, then the body that the header's
    /// length declares, which starts with 16 reserved bits, the flags byte,
    /// the metric type and the metric value.
    #[verifier::opaque]
    pub open spec fn spec_parse_metric_object(s: Seq<u8>) -> SpecDecoded<MetricObject> {
        match CommonObject::spec_parse_common_object(s) {
            Err(e) => Err(e),
            Ok((after_header, header)) => {
                if header.object_class_type != ObjectClassType::Metric(MetricObjectType::Metric) {
                    Err(DecodeError::Malformed)
                } else {
                    match header.spec_body_window(after_header) {
                        Err(e) => Err(e),
                        Ok((rest, body)) => {
                            if body.len() < 8 {
                                Err(DecodeError::Incomplete)
                            } else {
                                Ok(
                                    (
                                        rest,
                                        MetricObject {
                                            common_object: header,
                                            reserved: be16(body, 0) as u16,
                                            flag_compute: (body[2] / 2) % 2 == 1,
                                            flag_bound: body[2] % 2 == 1,
                                            metric_type: MetricType::of_code(body[3]),
                                            metric_value: Float32 { bits: be32(body, 4) as u32 },
                                        },
                                    ),
                                )
                            }
                        },
                    }
                }
            },
        }
    }

    /// Decodes the byte that packs the reserved bits, the compute flag and
    /// the bound flag.
    pub fn parse_res_flag_c_b<'a>(input: &'a [u8]) -> (r: Decoded<'a, (u8, u8, u8)>)
        ensures
            yields(r, MetricObject::spec_parse_res_flag_c_b(input@)),
    {
        let (rest, group) = take(input, 1)?;
        proof {
            lemma2_to64();
            reveal_with_fuel(prefix_value, 2);
            assert(prefix_value(group@, 1) == input@[0]);
            assert(prefix_value(group@, 1) / 1 == prefix_value(group@, 1));
            assert(bit_field(group@, 0, 6) == input@[0] / 4);
            assert(bit_field(group@, 6, 1) == (input@[0] / 2) % 2);
            assert(bit_field(group@, 7, 1) == input@[0] % 2);
        }
        let (cursor, reserved) = take_bits(group, 0, 6)?;
        let (cursor, compute) = take_bits(cursor.0, cursor.1, 1)?;
        let (_, bound) = take_bits(cursor.0, cursor.1, 1)?;
        Ok((rest, (reserved as u8, compute as u8, bound as u8)))
    }

    /// Length accounting: whatever decodes as a Metric object took from the
    /// input, header and body together, exactly the bytes that its header
    /// declares.
    pub proof fn lemma_length_accounting(s: Seq<u8>)
        ensures
            MetricObject::spec_parse_metric_object(s) matches Ok((rest, object))
                ==> object.common_object.accounts_for(s, rest),
    {
        reveal(MetricObject::spec_parse_metric_object);
    }

    /// Decodes a Metric object and returns it with the bytes after the
    /// object.
    pub fn parse_metric_object<'a>(input: &'a [u8]) -> (r: Decoded<'a, MetricObject>)
        ensures
            yields(r, MetricObject::spec_parse_metric_object(input@)),
            r matches Ok((rest, object)) ==> object.common_object.accounts_for(
                input@,
                rest@,
            ),
    {
        reveal(MetricObject::spec_parse_metric_object);
        let (remaining, cobj) = CommonObject::parse_common_object(input)?;
        if let ObjectClassType::Metric(MetricObjectType::Metric) = cobj.object_class_type {
            let (remaining, object_body) = cobj.body_window(remaining)?;
            let ghost body = object_body@;
            let (object_body, reserved) = be_u16(object_body)?;
            let (object_body, res_flag_c_b) = Self::parse_res_flag_c_b(object_body)?;
            let (object_body, metric_type) = be_u8(object_body)?;
            assert(object_body@ == body.skip(4));
            let (_object_body, metric_value) = be_u32(object_body)?;
            let metric_object = MetricObject {
                common_object: cobj,
                reserved,
                flag_compute: res_flag_c_b.1 == 1,
                flag_bound: res_flag_c_b.2 == 1,
                metric_type: MetricType::from(metric_type),
                metric_value: Float32 { bits: metric_value },
            };
            return Ok((remaining, metric_object));
        }
        Err(DecodeError::Malformed)
    }
}

} // verus!
