//! The ERO (Explicit Route Object).

use vstd::prelude::*;
use crate::error::DecodeError;
use crate::error::Decoded;
use crate::error::SpecDecoded;
use crate::error::yields_view;
use crate::objects::classes::ObjectClassType;
use crate::objects::header::CommonObject;
use crate::objects::types::EroObjectType;
use crate::subobjects::header::SubObject;
use crate::subobjects::parser::Parser;
use crate::subobjects::parser::spec_parse_optional_subobjects;

verus! {

/// The ERO: a path as the list of its hops.
#[derive(Debug, PartialEq, Eq)]
pub struct EroObject {
    pub common_object: CommonObject,
    pub subobjects: Option<Vec<SubObject>>,
}

/// The value of an `EroObject`.
pub struct EroObjectView {
    pub common_object: CommonObject,
    pub subobjects: Option<Seq<SubObject>>,
}

impl View for EroObject {
    type V = EroObjectView;

    open spec fn view(&self) -> EroObjectView {
        EroObjectView {
            common_object: self.common_object,
            subobjects: match self.subobjects {
                Some(list) => Some(list@),
                None => None,
            },
        }
    }
}

impl EroObject {
    /// The ERO at the front of `s`: the common header, which must name
    /// class ERO and type ERO, then the body that the header's length
    /// declares, which is a list of sub-objects.
    #[verifier::opaque]
    pub open spec fn spec_parse_ero_object(s: Seq<u8>) -> SpecDecoded<EroObjectView> {
        match CommonObject::spec_parse_common_object(s) {
            Err(e) => Err(e),
            Ok((after_header, header)) => {
                if header.object_class_type != ObjectClassType::Ero(EroObjectType::Ero) {
                    Err(DecodeError::Malformed)
                } else {
                    match header.spec_body_window(after_header) {
                        Err(e) => Err(e),
                        Ok((rest, body)) => match spec_parse_optional_subobjects(body) {
                            Err(e) => Err(e),
                            Ok(subobjects) => Ok(
                                (rest, EroObjectView { common_object: header, subobjects }),
                            ),
                        },
                    }
                }
            },
        }
    }

    /// Length accounting: whatever decodes as an ERO took from the
    /// input, header and body together, exactly the bytes that its header
    /// declares.
    pub proof fn lemma_length_accounting(s: Seq<u8>)
        ensures
            EroObject::spec_parse_ero_object(s) matches Ok((rest, object))
                ==> object.common_object.accounts_for(s, rest),
    {
        reveal(EroObject::spec_parse_ero_object);
    }

    /// Decodes an ERO and returns it with the bytes after the object.
    pub fn parse_ero_object<'a>(input: &'a [u8]) -> (r: Decoded<'a, EroObject>)
        ensures
            yields_view(r, EroObject::spec_parse_ero_object(input@)),
            r matches Ok((rest, object)) ==> object.common_object.accounts_for(
                input@,
                rest@,
            ),
    {
        reveal(EroObject::spec_parse_ero_object);
        let (remaining, common_object) = CommonObject::parse_common_object(input)?;
        if let ObjectClassType::Ero(EroObjectType::Ero) = common_object.object_class_type {
            let (remaining, object_body) = common_object.body_window(remaining)?;
            let subobjects = Parser::parse_optional_subobjects(object_body)?;
            let ero_object = EroObject { common_object, subobjects };
            return Ok((remaining, ero_object));
        }
        Err(DecodeError::Malformed)
    }
}

} // verus!
