//! The LSP object.

use vstd::prelude::*;
use vstd::arithmetic::power2::lemma2_to64;
use crate::common::OperationalStatus;
use crate::error::DecodeError;
use crate::error::Decoded;
use crate::error::SpecDecoded;
use crate::error::yields;
use crate::error::yields_view;
use crate::objects::classes::ObjectClassType;
use crate::objects::header::CommonObject;
use crate::objects::types::LspObjectType;
use crate::reader::be32;
use crate::reader::bit_field;
use crate::reader::prefix_value;
use crate::reader::take;
use crate::reader::take_bits;
use crate::tlvs::tlv_parser::Parser;
use crate::tlvs::tlv_parser::spec_parse_optional_tlvs;
use crate::tlvs::types::Tlv;
use crate::tlvs::types::TlvView;
use crate::tlvs::types::optional_tlv_views;

verus! {

/// The LSP object: the PLSP-ID of an LSP, its operational status and its
/// flags.
#[derive(Debug, PartialEq, Eq)]
pub struct LspObject {
    pub common_object: CommonObject,
    pub plsp_id: u32,
    pub operational_status: OperationalStatus,
    pub flag_administrative: bool,
    pub flag_remove: bool,
    pub flag_sync: bool,
    pub flag_delegate: bool,
    pub tlvs: Option<Vec<Tlv>>,
}

/// The value of an `LspObject`.
pub struct LspObjectView {
    pub common_object: CommonObject,
    pub plsp_id: u32,
    pub operational_status: OperationalStatus,
    pub flag_administrative: bool,
    pub flag_remove: bool,
    pub flag_sync: bool,
    pub flag_delegate: bool,
    pub tlvs: Option<Seq<TlvView>>,
}

impl View for LspObject {
    type V = LspObjectView;

    open spec fn view(&self) -> LspObjectView {
        LspObjectView {
            common_object: self.common_object,
            plsp_id: self.plsp_id,
            operational_status: self.operational_status,
            flag_administrative: self.flag_administrative,
            flag_remove: self.flag_remove,
            flag_sync: self.flag_sync,
            flag_delegate: self.flag_delegate,
            tlvs: optional_tlv_views(self.tlvs),
        }
    }
}

/// The two fields of the first word of an LSP object body that span bytes,
/// read from the bytes that hold them, are what they are in the whole word.
proof fn lemma_lsp_word(b0: int, b1: int, b2: int, b3: int)
    requires
        0 <= b0 < 0x100,
        0 <= b1 < 0x100,
        0 <= b2 < 0x100,
        0 <= b3 < 0x100,
    ensures
        ((b0 * 0x1_0000 + b1 * 0x100 + b2) / 0x10) % 0x10_0000 == (b0 * 0x100_0000 + b1 * 0x1_0000
            + b2 * 0x100 + b3) / 0x1000,
        ((b2 * 0x100 + b3) / 0x80) % 0x20 == ((b0 * 0x100_0000 + b1 * 0x1_0000 + b2 * 0x100 + b3)
            / 0x80) % 0x20,
{
    let head = b0 * 0x1_0000 + b1 * 0x100 + b2;
    let word = b0 * 0x100_0000 + b1 * 0x1_0000 + b2 * 0x100 + b3;
    assert(word == head * 0x100 + b3);
    assert(word / 0x1000 == head / 0x10);
    assert(word == (b0 * 0x2_0000 + b1 * 0x200) * 0x80 + (b2 * 0x100 + b3));
    assert(word / 0x80 == (b0 * 0x1000 + b1 * 0x10) * 0x20 + (b2 * 0x100 + b3) / 0x80);
}

/// The seven fields of the first word of an LSP object body, in wire order:
/// PLSP-ID, reserved bits, operational status, and the flags A, R, S and D.
pub type LspWord = (u32, u8, u8, u8, u8, u8, u8);

impl LspObject {
    /// The fields packed into the first four bytes of `s`:
    ///
    /// ```text
    /// | PLSP-ID(20b) | reserved(5b) | status(3b) | A | R | S | D |
    /// ```
    pub open spec fn spec_parse_plsp_id_res_oper_flag_a_r_s_d(s: Seq<u8>) -> SpecDecoded<LspWord> {
        if s.len() < 4 {
            Err(DecodeError::Incomplete)
        } else {
            Ok(
                (
                    s.skip(4),
                    (
                        (be32(s, 0) / 0x1000) as u32,
                        ((be32(s, 0) / 0x80) % 32) as u8,
                        ((s[3] / 16) % 8) as u8,
                        ((s[3] / 8) % 2) as u8,
                        ((s[3] / 4) % 2) as u8,
                        ((s[3] / 2) % 2) as u8,
                        (s[3] % 2) as u8,
                    ),
                ),
            )
        }
    }

    /// The body of an LSP object with the header `header`: the packed first
    /// word, and the TLVs of what is left of the body.
    pub open spec fn spec_parse_body(header: CommonObject, body: Seq<u8>) -> Result<
        LspObjectView,
        DecodeError,
    > {
        if body.len() < 4 {
            Err(DecodeError::Incomplete)
        } else {
            match spec_parse_optional_tlvs(body.skip(4)) {
                Err(e) => Err(e),
                Ok(tlvs) => Ok(
                    LspObjectView {
                        common_object: header,
                        plsp_id: (be32(body, 0) / 0x1000) as u32,
                        operational_status: OperationalStatus::of_code(
                            ((body[3] / 16) % 8) as u8,
                        ),
                        flag_administrative: (body[3] / 8) % 2 == 1,
                        flag_remove: (body[3] / 4) % 2 == 1,
                        flag_sync: (body[3] / 2) % 2 == 1,
                        flag_delegate: body[3] % 2 == 1,
                        tlvs,
                    },
                ),
            }
        }
    }

    /// The LSP object at the front of `s`: the common header, which must
    /// name class LSP and type LSP, then the body that the header's length
    /// declares.
    #[verifier::opaque]
    pub open spec fn spec_parse_lsp_object(s: Seq<u8>) -> SpecDecoded<LspObjectView> {
        match CommonObject::spec_parse_common_object(s) {
            Err(e) => Err(e),
            Ok((after_header, header)) => {
                if header.object_class_type != ObjectClassType::Lsp(LspObjectType::Lsp) {
                    Err(DecodeError::Malformed)
                } else {
                    match header.spec_body_window(after_header) {
                        Err(e) => Err(e),
                        Ok((rest, body)) => match Self::spec_parse_body(header, body) {
                            Err(e) => Err(e),
                            Ok(object) => Ok((rest, object)),
                        },
                    }
                }
            },
        }
    }

    /// Decodes the word that packs the PLSP-ID, the reserved bits, the
    /// operational status and the four flags.
    pub fn parse_plsp_id_res_oper_flag_a_r_s_d<'a>(input: &'a [u8]) -> (r: Decoded<'a, LspWord>)
        ensures
            yields(r, LspObject::spec_parse_plsp_id_res_oper_flag_a_r_s_d(input@)),
    {
        let (rest, group) = take(input, 4)?;
        proof {
            let tail = group@.skip(2);
            let last = group@.skip(3);
            lemma2_to64();
            reveal_with_fuel(prefix_value, 4);
            lemma_lsp_word(input@[0] as int, input@[1] as int, input@[2] as int, input@[3] as int);
            assert(prefix_value(last, 1) / 1 == prefix_value(last, 1));
            assert(bit_field(group@, 0, 20) == be32(input@, 0) / 0x1000);
            assert(bit_field(tail, 4, 5) == (be32(input@, 0) / 0x80) % 32);
            assert(tail.skip(1) == last);
            assert(last.skip(0) == last);
            assert(bit_field(last, 1, 3) == (input@[3] / 16) % 8);
            assert(bit_field(last, 4, 1) == (input@[3] / 8) % 2);
            assert(bit_field(last, 5, 1) == (input@[3] / 4) % 2);
            assert(bit_field(last, 6, 1) == (input@[3] / 2) % 2);
            assert(bit_field(last, 7, 1) == input@[3] % 2);
        }
        let (cursor, plsp_id) = take_bits(group, 0, 20)?;
        let (cursor, reserved) = take_bits(cursor.0, cursor.1, 5)?;
        let (cursor, status) = take_bits(cursor.0, cursor.1, 3)?;
        let (cursor, administrative) = take_bits(cursor.0, cursor.1, 1)?;
        let (cursor, remove) = take_bits(cursor.0, cursor.1, 1)?;
        let (cursor, sync) = take_bits(cursor.0, cursor.1, 1)?;
        let (_, delegate) = take_bits(cursor.0, cursor.1, 1)?;
        Ok(
            (
                rest,
                (
                    plsp_id,
                    reserved as u8,
                    status as u8,
                    administrative as u8,
                    remove as u8,
                    sync as u8,
                    delegate as u8,
                ),
            ),
        )
    }

    /// Length accounting: whatever decodes as an LSP object took from the
    /// input, header and body together, exactly the bytes that its header
    /// declares.
    pub proof fn lemma_length_accounting(s: Seq<u8>)
        ensures
            LspObject::spec_parse_lsp_object(s) matches Ok((rest, object))
                ==> object.common_object.accounts_for(s, rest),
    {
        reveal(LspObject::spec_parse_lsp_object);
    }

    /// Decodes an LSP object and returns it with the bytes after the
    /// object.
    pub fn parse_lsp_object<'a>(input: &'a [u8]) -> (r: Decoded<'a, LspObject>)
        ensures
            yields_view(r, LspObject::spec_parse_lsp_object(input@)),
            r matches Ok((rest, object)) ==> object.common_object.accounts_for(
                input@,
                rest@,
            ),
    {
        reveal(LspObject::spec_parse_lsp_object);
        let (remaining, common_object) = CommonObject::parse_common_object(input)?;
        if let ObjectClassType::Lsp(LspObjectType::Lsp) = common_object.object_class_type {
            let (remaining, object_body) = common_object.body_window(remaining)?;
            let (object_body, word) = Self::parse_plsp_id_res_oper_flag_a_r_s_d(object_body)?;
            let tlvs = Parser::parse_optional_tlvs(object_body)?;
            let lsp_object = LspObject {
                common_object,
                plsp_id: word.0,
                operational_status: OperationalStatus::from(word.2),
                flag_administrative: word.3 == 1,
                flag_remove: word.4 == 1,
                flag_sync: word.5 == 1,
                flag_delegate: word.6 == 1,
                tlvs,
            };
            return Ok((remaining, lsp_object));
        }
        Err(DecodeError::Malformed)
    }
}

} // verus!
