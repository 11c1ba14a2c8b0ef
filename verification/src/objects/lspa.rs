//! The LSPA (LSP Attributes) object.

use vstd::prelude::*;
use vstd::arithmetic::power2::lemma2_to64;
use crate::error::DecodeError;
use crate::error::Decoded;
use crate::error::SpecDecoded;
use crate::error::yields;
use crate::error::yields_view;
use crate::objects::classes::ObjectClassType;
use crate::objects::header::CommonObject;
use crate::objects::types::LspaObjectType;
use crate::reader::be32;
use crate::reader::be_u32;
use crate::reader::be_u8;
use crate::reader::bit_field;
use crate::reader::prefix_value;
use crate::reader::take;
use crate::reader::take_bits;
use crate::tlvs::tlv_parser::Parser;
use crate::tlvs::tlv_parser::spec_parse_optional_tlvs;
use crate::tlvs::types::Tlv;
use crate::tlvs::types::TlvView;
use crate::tlvs::types::optional_tlv_views;

verus! {

/// The LSPA object: resource affinities, priorities and the
/// local-protection flag of an LSP.
#[derive(Debug, PartialEq, Eq)]
pub struct LspaObject {
    pub common_object: CommonObject,
    pub exclude_any: u32,
    pub include_any: u32,
    pub include_all: u32,
    pub setup_priority: u8,
    pub holding_priority: u8,
    pub flag_local_protection: bool,
    pub reserved: u8,
    pub tlvs: Option<Vec<Tlv>>,
}

/// The value of an `LspaObject`.
pub struct LspaObjectView {
    pub common_object: CommonObject,
    pub exclude_any: u32,
    pub include_any: u32,
    pub include_all: u32,
    pub setup_priority: u8,
    pub holding_priority: u8,
    pub flag_local_protection: bool,
    pub reserved: u8,
    pub tlvs: Option<Seq<TlvView>>,
}

impl View for LspaObject {
    type V = LspaObjectView;

    open spec fn view(&self) -> LspaObjectView {
        LspaObjectView {
            common_object: self.common_object,
            exclude_any: self.exclude_any,
            include_any: self.include_any,
            include_all: self.include_all,
            setup_priority: self.setup_priority,
            holding_priority: self.holding_priority,
            flag_local_protection: self.flag_local_protection,
            reserved: self.reserved,
            tlvs: optional_tlv_views(self.tlvs),
        }
    }
}

impl LspaObject {
    /// The two fields packed into the first byte of `s`: seven reserved
    /// bits and the local-protection bit.
    pub open spec fn spec_parse_res_flag_l(s: Seq<u8>) -> SpecDecoded<(u8, u8)> {
        if s.len() < 1 {
            Err(DecodeError::Incomplete)
        } else {
            Ok((s.skip(1), ((s[0] / 2) as u8, (s[0] % 2) as u8)))
        }
    }

    /// The body of an LSPA object with the header `header`: three 32-bit
    /// affinity masks, setup and holding priority, the flags byte, a
    /// reserved byte, and the TLVs of what is left of the body.
    pub open spec fn spec_parse_body(header: CommonObject, body: Seq<u8>) -> Result<
        LspaObjectView,
        DecodeError,
    > {
        if body.len() < 16 {
            Err(DecodeError::Incomplete)
        } else {
            match spec_parse_optional_tlvs(body.skip(16)) {
                Err(e) => Err(e),
                Ok(tlvs) => Ok(
                    LspaObjectView {
                        common_object: header,
                        exclude_any: be32(body, 0) as u32,
                        include_any: be32(body, 4) as u32,
                        include_all: be32(body, 8) as u32,
                        setup_priority: body[12],
                        holding_priority: body[13],
                        flag_local_protection: body[14] % 2 == 1,
                        reserved: body[15],
                        tlvs,
                    },
                ),
            }
        }
    }

    /// The LSPA object at the front of `s`: the common header, which must
    /// name class LSPA and type LSPA, then the body that the header's
    /// length declares.
    #[verifier::opaque]
    pub open spec fn spec_parse_lspa_object(s: Seq<u8>) -> SpecDecoded<LspaObjectView> {
        match CommonObject::spec_parse_common_object(s) {
            Err(e) => Err(e),
            Ok((after_header, header)) => {
                if header.object_class_type != ObjectClassType::Lspa(LspaObjectType::Lspa) {
                    Err(DecodeError::Malformed)
                } else {
                    match header.spec_body_window(after_header) {
                        Err(e) => Err(e),
                        Ok((rest, body)) => match Self::spec_parse_body(header, body) {
                            Err(e) => Err(e),
                            Ok(object) => Ok((rest, object)),
                        },
                    }
                }
            },
        }
    }

    /// Decodes the byte that packs the reserved bits and the
    /// local-protection flag.
    pub fn parse_res_flag_l<'a>(input: &'a [u8]) -> (r: Decoded<'a, (u8, u8)>)
        ensures
            yields(r, LspaObject::spec_parse_res_flag_l(input@)),
    {
        let (rest, group) = take(input, 1)?;
        proof {
            lemma2_to64();
            reveal_with_fuel(prefix_value, 2);
            assert(prefix_value(group@, 1) == input@[0]);
            assert(prefix_value(group@, 1) / 1 == prefix_value(group@, 1));
            assert(bit_field(group@, 0, 7) == input@[0] / 2);
            assert(bit_field(group@, 7, 1) == input@[0] % 2);
        }
        let (cursor, reserved) = take_bits(group, 0, 7)?;
        let (_, local_protection) = take_bits(cursor.0, cursor.1, 1)?;
        Ok((rest, (reserved as u8, local_protection as u8)))
    }

    /// Length accounting: whatever decodes as an LSPA object took from the
    /// input, header and body together, exactly the bytes that its header
    /// declares.
    pub proof fn lemma_length_accounting(s: Seq<u8>)
        ensures
            LspaObject::spec_parse_lspa_object(s) matches Ok((rest, object))
                ==> object.common_object.accounts_for(s, rest),
    {
        reveal(LspaObject::spec_parse_lspa_object);
    }

    /// Decodes an LSPA object and returns it with the bytes after the
    /// object.
    pub fn parse_lspa_object<'a>(input: &'a [u8]) -> (r: Decoded<'a, LspaObject>)
        ensures
            yields_view(r, LspaObject::spec_parse_lspa_object(input@)),
            r matches Ok((rest, object)) ==> object.common_object.accounts_for(
                input@,
                rest@,
            ),
    {
        reveal(LspaObject::spec_parse_lspa_object);
        let (remaining, cobj) = CommonObject::parse_common_object(input)?;
        if let ObjectClassType::Lspa(LspaObjectType::Lspa) = cobj.object_class_type {
            let (remaining, object_body) = cobj.body_window(remaining)?;
            let ghost body = object_body@;
            let (object_body, exclude_any) = be_u32(object_body)?;
            let (object_body, include_any) = be_u32(object_body)?;
            let (object_body, include_all) = be_u32(object_body)?;
            assert(object_body@ == body.skip(12));
            let (object_body, setup_priority) = be_u8(object_body)?;
            let (object_body, holding_priority) = be_u8(object_body)?;
            let (object_body, res_flag_l) = Self::parse_res_flag_l(object_body)?;
            let (object_body, reserved) = be_u8(object_body)?;
            assert(object_body@ == body.skip(16));
            let tlvs = Parser::parse_optional_tlvs(object_body)?;
            let lspa_object = LspaObject {
                common_object: cobj,
                exclude_any,
                include_any,
                include_all,
                setup_priority,
                holding_priority,
                flag_local_protection: res_flag_l.1 == 1,
                reserved,
                tlvs,
            };
            return Ok((remaining, lspa_object));
        }
        Err(DecodeError::Malformed)
    }
}

} // verus!
