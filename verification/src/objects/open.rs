//! The Open object.

use vstd::prelude::*;
use crate::common::Version;
use crate::error::DecodeError;
use crate::error::Decoded;
use crate::error::SpecDecoded;
use crate::error::yields;
use crate::error::yields_view;
use crate::messages::header::CommonHeader;
use crate::objects::classes::ObjectClassType;
use crate::objects::header::CommonObject;
use crate::objects::types::OpenObjectType;
use crate::reader::be_u8;
use crate::tlvs::tlv_parser::Parser;
use crate::tlvs::tlv_parser::spec_parse_optional_tlvs;
use crate::tlvs::types::Tlv;
use crate::tlvs::types::TlvView;
use crate::tlvs::types::optional_tlv_views;

verus! {

/// The Open object: what a peer proposes for the session.
#[derive(Debug, PartialEq, Eq)]
pub struct OpenObject {
    pub common_object: CommonObject,
    pub version: Version,
    pub flags: u8,
    pub keepalive: u8,
    pub deadtimer: u8,
    pub sid: u8,
    pub tlvs: Option<Vec<Tlv>>,
}

/// The value of an `OpenObject`.
pub struct OpenObjectView {
    pub common_object: CommonObject,
    pub version: Version,
    pub flags: u8,
    pub keepalive: u8,
    pub deadtimer: u8,
    pub sid: u8,
    pub tlvs: Option<Seq<TlvView>>,
}

impl View for OpenObject {
    type V = OpenObjectView;

    open spec fn view(&self) -> OpenObjectView {
        OpenObjectView {
            common_object: self.common_object,
            version: self.version,
            flags: self.flags,
            keepalive: self.keepalive,
            deadtimer: self.deadtimer,
            sid: self.sid,
            tlvs: optional_tlv_views(self.tlvs),
        }
    }
}

impl OpenObject {
    /// The body of an Open object with the header `header`: version and
    /// flags in one byte, keepalive, deadtimer, session id, and the TLVs of
    /// what is left of the body.  The version must be 1.
    pub open spec fn spec_parse_body(header: CommonObject, body: Seq<u8>) -> Result<
        OpenObjectView,
        DecodeError,
    > {
        if body.len() < 4 {
            Err(DecodeError::Incomplete)
        } else {
            match Version::of_code((body[0] / 32) as u8) {
                None => Err(DecodeError::Malformed),
                Some(version) => match spec_parse_optional_tlvs(body.skip(4)) {
                    Err(e) => Err(e),
                    Ok(tlvs) => Ok(
                        OpenObjectView {
                            common_object: header,
                            version,
                            flags: (body[0] % 32) as u8,
                            keepalive: body[1],
                            deadtimer: body[2],
                            sid: body[3],
                            tlvs,
                        },
                    ),
                },
            }
        }
    }

    /// The Open object at the front of `s`: the common header, which must
    /// name class Open and type Open, then the body that the header's
    /// length declares.
    #[verifier::opaque]
    pub open spec fn spec_parse_open_object(s: Seq<u8>) -> SpecDecoded<OpenObjectView> {
        match CommonObject::spec_parse_common_object(s) {
            Err(e) => Err(e),
            Ok((after_header, header)) => {
                if header.object_class_type != ObjectClassType::Open(OpenObjectType::Open) {
                    Err(DecodeError::Malformed)
                } else {
                    match header.spec_body_window(after_header) {
                        Err(e) => Err(e),
                        Ok((rest, body)) => match Self::spec_parse_body(header, body) {
                            Err(e) => Err(e),
                            Ok(object) => Ok((rest, object)),
                        },
                    }
                }
            },
        }
    }

    /// Decodes the byte that packs the 3-bit version and the 5-bit flags.
    pub fn parse_ver_flags<'a>(input: &'a [u8]) -> (r: Decoded<'a, (u8, u8)>)
        ensures
            yields(r, CommonHeader::spec_parse_version_flags(input@)),
    {
        CommonHeader::parse_version_flags(input)
    }

    /// Length accounting: whatever decodes as an Open object took from the
    /// input, header and body together, exactly the bytes that its header
    /// declares.
    pub proof fn lemma_length_accounting(s: Seq<u8>)
        ensures
            OpenObject::spec_parse_open_object(s) matches Ok((rest, object))
                ==> object.common_object.accounts_for(s, rest),
    {
        reveal(OpenObject::spec_parse_open_object);
    }

    /// Decodes an Open object and returns it with the bytes after the
    /// object.
    pub fn parse_open_object<'a>(input: &'a [u8]) -> (r: Decoded<'a, OpenObject>)
        ensures
            yields_view(r, OpenObject::spec_parse_open_object(input@)),
            r matches Ok((rest, object)) ==> object.common_object.accounts_for(
                input@,
                rest@,
            ),
    {
        reveal(OpenObject::spec_parse_open_object);
        let (remaining, cobj) = CommonObject::parse_common_object(input)?;
        if let ObjectClassType::Open(OpenObjectType::Open) = cobj.object_class_type {
            let (remaining, object_body) = cobj.body_window(remaining)?;
            let ghost body = object_body@;
            let (object_body, ver_flags) = Self::parse_ver_flags(object_body)?;
            let (object_body, keepalive) = be_u8(object_body)?;
            let (object_body, deadtimer) = be_u8(object_body)?;
            let (object_body, sid) = be_u8(object_body)?;
            assert(object_body@ == body.skip(4));
            let version = Version::try_from(ver_flags.0)?;
            let tlvs = Parser::parse_optional_tlvs(object_body)?;
            let open_obj = OpenObject {
                common_object: cobj,
                version,
                flags: ver_flags.1,
                keepalive,
                deadtimer,
                sid,
                tlvs,
            };
            return Ok((remaining, open_obj));
        }
        Err(DecodeError::Malformed)
    }
}

} // verus!
