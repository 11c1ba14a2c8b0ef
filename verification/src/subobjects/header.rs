//! The sub-object header: the two bytes that start every ERO sub-object.

use vstd::prelude::*;
use vstd::arithmetic::power2::lemma2_to64;
use crate::error::DecodeError;
use crate::error::Decoded;
use crate::error::SpecDecoded;
use crate::error::yields;
use crate::reader::be_u8;
use crate::reader::bit_field;
use crate::reader::prefix_value;
use crate::reader::take;
use crate::reader::take_bits;
use crate::subobjects::types::SubObjectTypes;

verus! {

/// An ERO sub-object.
///
/// ```text
/// | L(1b) type(7b) | length(8b) | value(length - 2 bytes) |
/// ```
///
/// `subobject_len` counts the whole sub-object, the two bytes of the header
/// included.
#[derive(Debug, PartialEq, Eq, Clone, Copy, Structural)]
pub struct SubObject {
    pub flag_l: bool,
    pub subobject_type: SubObjectTypes,
    pub subobject_len: u8,
}

impl SubObject {
    /// The two fields packed into the first byte of `s`: the loose bit and
    /// the type code.
    pub open spec fn spec_parse_l_subobj(s: Seq<u8>) -> SpecDecoded<(u8, u8)> {
        if s.len() < 1 {
            Err(DecodeError::Incomplete)
        } else {
            Ok((s.skip(1), ((s[0] / 128) as u8, (s[0] % 128) as u8)))
        }
    }

    /// The header at the front of `s`, as a sub-object of the kind that the
    /// type code names, with the value not decoded yet.
    pub open spec fn spec_parse_common_subobject(s: Seq<u8>) -> SpecDecoded<SubObject> {
        if s.len() < 2 {
            Err(DecodeError::Incomplete)
        } else {
            Ok(
                (
                    s.skip(2),
                    SubObject {
                        flag_l: s[0] / 128 == 1,
                        subobject_type: SubObjectTypes::of_code((s[0] % 128) as u8),
                        subobject_len: s[1],
                    },
                ),
            )
        }
    }

    /// Decodes the byte that packs the loose flag and the type code.
    pub fn parse_l_subobj<'a>(input: &'a [u8]) -> (r: Decoded<'a, (u8, u8)>)
        ensures
            yields(r, SubObject::spec_parse_l_subobj(input@)),
    {
        let (rest, group) = take(input, 1)?;
        proof {
            lemma2_to64();
            reveal_with_fuel(prefix_value, 2);
            assert(prefix_value(group@, 1) == input@[0]);
            assert(prefix_value(group@, 1) / 1 == prefix_value(group@, 1));
            assert(bit_field(group@, 0, 1) == input@[0] / 128);
            assert(bit_field(group@, 1, 7) == input@[0] % 128);
        }
        let (cursor, loose) = take_bits(group, 0, 1)?;
        let (_, subobject_type) = take_bits(cursor.0, cursor.1, 7)?;
        Ok((rest, (loose as u8, subobject_type as u8)))
    }

    /// Decodes the header of a sub-object and returns it with the bytes
    /// that follow it.
    pub fn parse_common_subobject<'a>(input: &'a [u8]) -> (r: Decoded<'a, SubObject>)
        ensures
            yields(r, SubObject::spec_parse_common_subobject(input@)),
    {
        let (remaining, l_subobj) = Self::parse_l_subobj(input)?;
        let (remaining, subobject_len) = be_u8(remaining)?;
        assert(remaining@ == input@.skip(2));
        let common_subobj = SubObject {
            flag_l: l_subobj.0 == 1,
            subobject_type: SubObjectTypes::from(l_subobj.1),
            subobject_len,
        };
        Ok((remaining, common_subobj))
    }
}

} // verus!
