//! The SRP (Stateful PCE Request Parameters) object.

use vstd::prelude::*;
use crate::error::DecodeError;
use crate::error::Decoded;
use crate::error::SpecDecoded;
use crate::error::yields_view;
use crate::objects::classes::ObjectClassType;
use crate::objects::header::CommonObject;
use crate::objects::types::SrpObjectType;
use crate::reader::be32;
use crate::reader::be_u32;
use crate::reader::bit_set;
use crate::tlvs::tlv_parser::Parser;
use crate::tlvs::tlv_parser::spec_parse_optional_tlvs;
use crate::tlvs::types::Tlv;
use crate::tlvs::types::TlvView;
use crate::tlvs::types::optional_tlv_views;

verus! {

/// The SRP object: a flag word and the SRP-ID that ties a request to its
/// replies.
#[derive(Debug, PartialEq, Eq)]
pub struct SrpObject {
    pub common_object: CommonObject,
    pub flags: u32,
    pub srp_id: u32,
    pub tlvs: Option<Vec<Tlv>>,
}

/// The value of an `SrpObject`.
pub struct SrpObjectView {
    pub common_object: CommonObject,
    pub flags: u32,
    pub srp_id: u32,
    pub tlvs: Option<Seq<TlvView>>,
}

impl View for SrpObject {
    type V = SrpObjectView;

    open spec fn view(&self) -> SrpObjectView {
        SrpObjectView {
            common_object: self.common_object,
            flags: self.flags,
            srp_id: self.srp_id,
            tlvs: optional_tlv_views(self.tlvs),
        }
    }
}

impl SrpObjectView {
    /// The remove flag: the lowest bit of the flag word.
    pub open spec fn flag_remove(self) -> bool {
        bit_set(self.flags as int, 1)
    }
}

impl SrpObject {
    /// The body of an SRP object with the header `header`: flags, SRP-ID,
    /// and the TLVs of what is left of the body.
    pub open spec fn spec_parse_body(header: CommonObject, body: Seq<u8>) -> Result<
        SrpObjectView,
        DecodeError,
    > {
        if body.len() < 8 {
            Err(DecodeError::Incomplete)
        } else {
            match spec_parse_optional_tlvs(body.skip(8)) {
                Err(e) => Err(e),
                Ok(tlvs) => Ok(
                    SrpObjectView {
                        common_object: header,
                        flags: be32(body, 0) as u32,
                        srp_id: be32(body, 4) as u32,
                        tlvs,
                    },
                ),
            }
        }
    }

    /// The SRP object at the front of `s`: the common header, which must
    /// name class SRP and type SRP, then the body that the header's length
    /// declares.
    #[verifier::opaque]
    pub open spec fn spec_parse_srp_object(s: Seq<u8>) -> SpecDecoded<SrpObjectView> {
        match CommonObject::spec_parse_common_object(s) {
            Err(e) => Err(e),
            Ok((after_header, header)) => {
                if header.object_class_type != ObjectClassType::Srp(SrpObjectType::Srp) {
                    Err(DecodeError::Malformed)
                } else {
                    match header.spec_body_window(after_header) {
                        Err(e) => Err(e),
                        Ok((rest, body)) => match Self::spec_parse_body(header, body) {
                            Err(e) => Err(e),
                            Ok(object) => Ok((rest, object)),
                        },
                    }
                }
            },
        }
    }

    /// Length accounting: whatever decodes as an SRP object took from the
    /// input, header and body together, exactly the bytes that its header
    /// declares.
    pub proof fn lemma_length_accounting(s: Seq<u8>)
        ensures
            SrpObject::spec_parse_srp_object(s) matches Ok((rest, object))
                ==> object.common_object.accounts_for(s, rest),
    {
        reveal(SrpObject::spec_parse_srp_object);
    }

    /// Decodes an SRP object and returns it with the bytes after the
    /// object.
    pub fn parse_srp_object<'a>(input: &'a [u8]) -> (r: Decoded<'a, SrpObject>)
        ensures
            yields_view(r, SrpObject::spec_parse_srp_object(input@)),
            r matches Ok((rest, object)) ==> object.common_object.accounts_for(
                input@,
                rest@,
            ),
    {
        reveal(SrpObject::spec_parse_srp_object);
        let (remaining, common_object) = CommonObject::parse_common_object(input)?;
        if let ObjectClassType::Srp(SrpObjectType::Srp) = common_object.object_class_type {
            let (remaining, object_body) = common_object.body_window(remaining)?;
            let ghost body = object_body@;
            let (object_body, flags) = be_u32(object_body)?;
            let (object_body, srp_id) = be_u32(object_body)?;
            assert(object_body@ == body.skip(8));
            let tlvs = Parser::parse_optional_tlvs(object_body)?;
            let srp_object = SrpObject { common_object, flags, srp_id, tlvs };
            return Ok((remaining, srp_object));
        }
        Err(DecodeError::Malformed)
    }

    /// The remove flag of the object: whether the request asks for the
    /// removal of an LSP.
    pub fn flag_remove(&self) -> (flag: bool)
        ensures
            flag == self@.flag_remove(),
    {
        let flags = self.flags;
        assert((flags & 0b1 == 0b1) == bit_set(flags as int, 1)) by (bit_vector);
        flags & 0b1 == 0b1
    }
}

} // verus!
