//! The common object header: the four bytes that start every object.

use vstd::prelude::*;
use vstd::arithmetic::power2::lemma2_to64;
use crate::error::DecodeError;
use crate::error::Decoded;
use crate::error::SpecDecoded;
use crate::error::yields;
use crate::error::yields_view;
use crate::objects::classes::ObjectClassType;
use crate::reader::be16;
use crate::reader::be_u16;
use crate::reader::be_u8;
use crate::reader::bit_field;
use crate::reader::prefix_value;
use crate::reader::spec_take;
use crate::reader::take;
use crate::reader::take_bits;

verus! {

/// The common object header.
///
/// ```text
/// | obj-class(8b) | obj-type(4b) reserved(2b) P(1b) I(1b) | obj-length(16b) |
/// ```
///
/// `object_length` counts the whole object, these four bytes included.
#[derive(Debug, PartialEq, Eq, Clone, Copy)]
pub struct CommonObject {
    pub object_class_type: ObjectClassType,
    pub reserved: u8,
    pub flag_process: bool,
    pub flag_ignore: bool,
    pub object_length: u16,
}

impl CommonObject {
    /// Length accounting of a decoded object: the bytes that the decoder
    /// took from `input`, header and body together, are exactly as many as
    /// the header of the object declares, and `rest` is what follows them.
    pub open spec fn accounts_for(self, input: Seq<u8>, rest: Seq<u8>) -> bool {
        &&& 4 <= self.object_length <= input.len()
        &&& rest =~= input.skip(self.object_length as int)
    }

    /// The four fields packed into the first byte of `s`: object type,
    /// reserved bits, processing-rule bit and ignore bit.
    pub open spec fn spec_parse_typ_res_p_i(s: Seq<u8>) -> SpecDecoded<(u8, u8, u8, u8)> {
        if s.len() < 1 {
            Err(DecodeError::Incomplete)
        } else {
            Ok(
                (
                    s.skip(1),
                    (
                        (s[0] / 16) as u8,
                        ((s[0] / 4) % 4) as u8,
                        ((s[0] / 2) % 2) as u8,
                        (s[0] % 2) as u8,
                    ),
                ),
            )
        }
    }

    /// The header at the front of `s`.  Every class and type is accepted.
    pub open spec fn spec_parse_common_object(s: Seq<u8>) -> SpecDecoded<CommonObject> {
        if s.len() < 4 {
            Err(DecodeError::Incomplete)
        } else {
            Ok(
                (
                    s.skip(4),
                    CommonObject {
                        object_class_type: ObjectClassType::resolve(s[0], (s[1] / 16) as u8),
                        reserved: ((s[1] / 4) % 4) as u8,
                        flag_process: (s[1] / 2) % 2 == 1,
                        flag_ignore: s[1] % 2 == 1,
                        object_length: be16(s, 2) as u16,
                    },
                ),
            )
        }
    }

    /// The body of the object that this header starts, carved from the
    /// bytes `s` that follow the header: the bytes after the object, then
    /// the body.  A declared length that does not even cover the header is
    /// malformed; a body that `s` does not hold in full is incomplete.
    pub open spec fn spec_body_window(self, s: Seq<u8>) -> SpecDecoded<Seq<u8>> {
        if self.object_length < 4 {
            Err(DecodeError::Malformed)
        } else {
            spec_take(s, (self.object_length - 4) as nat)
        }
    }

    /// Decodes the byte that packs object type, reserved bits and the two
    /// flags.
    pub fn parse_typ_res_p_i<'a>(input: &'a [u8]) -> (r: Decoded<'a, (u8, u8, u8, u8)>)
        ensures
            yields(r, CommonObject::spec_parse_typ_res_p_i(input@)),
    {
        let (rest, group) = take(input, 1)?;
        proof {
            lemma2_to64();
            reveal_with_fuel(prefix_value, 2);
            assert(prefix_value(group@, 1) == input@[0]);
            assert(prefix_value(group@, 1) / 1 == prefix_value(group@, 1));
            assert(bit_field(group@, 0, 4) == input@[0] / 16);
            assert(bit_field(group@, 4, 2) == (input@[0] / 4) % 4);
            assert(bit_field(group@, 6, 1) == (input@[0] / 2) % 2);
            assert(bit_field(group@, 7, 1) == input@[0] % 2);
        }
        let (cursor, object_type) = take_bits(group, 0, 4)?;
        let (cursor, reserved) = take_bits(cursor.0, cursor.1, 2)?;
        let (cursor, process) = take_bits(cursor.0, cursor.1, 1)?;
        let (_, ignore) = take_bits(cursor.0, cursor.1, 1)?;
        Ok((rest, (object_type as u8, reserved as u8, process as u8, ignore as u8)))
    }

    /// Decodes the common object header and returns it with the bytes that
    /// follow it.  An unrecognised class is no error: it resolves to
    /// `ObjectClassType::Unknown`.
    pub fn parse_common_object<'a>(input: &'a [u8]) -> (r: Decoded<'a, CommonObject>)
        ensures
            yields(r, CommonObject::spec_parse_common_object(input@)),
    {
        let (rest, object_class) = be_u8(input)?;
        let (rest, typ_res_p_i) = Self::parse_typ_res_p_i(rest)?;
        let (rest, object_length) = be_u16(rest)?;
        let object_type = typ_res_p_i.0;
        let object_class_type = ObjectClassType::from((object_class, object_type));
        let cobj = CommonObject {
            object_class_type,
            reserved: typ_res_p_i.1,
            flag_process: typ_res_p_i.2 == 1,
            flag_ignore: typ_res_p_i.3 == 1,
            object_length,
        };
        assert(rest@ == input@.skip(4));
        Ok((rest, cobj))
    }

    /// Carves the body of this object from the bytes that follow its
    /// header: returns the bytes after the object, and the body.
    pub fn body_window<'a>(&self, input: &'a [u8]) -> (r: Decoded<'a, &'a [u8]>)
        ensures
            yields_view(r, self.spec_body_window(input@)),
    {
        if self.object_length < 4 {
            return Err(DecodeError::Malformed);
        }
        let object_body_len = self.object_length - 4;
        take(input, object_body_len as usize)
    }
}

} // verus!
