//! Object classes: the pair of class and type that selects the decoder of
//! an object body.

use vstd::prelude::*;
use vstd::std_specs::convert::FromSpecImpl;
use crate::objects::types::BandwidthObjectType;
use crate::objects::types::EndpointsObjectType;
use crate::objects::types::EroObjectType;
use crate::objects::types::LspObjectType;
use crate::objects::types::LspaObjectType;
use crate::objects::types::MetricObjectType;
use crate::objects::types::OpenObjectType;
use crate::objects::types::SrpObjectType;

verus! {

/// The class of an object together with its type within the class.  A class
/// that is not decoded here is kept as `Unknown` with the raw pair.
#[derive(Debug, PartialEq, Eq, Clone, Copy)]
pub enum ObjectClassType {
    Open(OpenObjectType),
    Lsp(LspObjectType),
    Lspa(LspaObjectType),
    Srp(SrpObjectType),
    Bandwidth(BandwidthObjectType),
    Metric(MetricObjectType),
    Ero(EroObjectType),
    EndPoints(EndpointsObjectType),
    Unknown((u8, u8)),
}

impl ObjectClassType {
    /// Whether objects of class `object_class` are decoded by this crate.
    pub open spec fn is_known_class(object_class: u8) -> bool {
        object_class == 1 || object_class == 4 || object_class == 5 || object_class == 6
            || object_class == 7 || object_class == 9 || object_class == 32 || object_class == 33
    }

    /// The class and type that the pair of raw values names.
    pub open spec fn resolve(object_class: u8, object_type: u8) -> ObjectClassType {
        match object_class {
            1 => ObjectClassType::Open(OpenObjectType::of_code(object_type)),
            4 => ObjectClassType::EndPoints(EndpointsObjectType::of_code(object_type)),
            5 => ObjectClassType::Bandwidth(BandwidthObjectType::of_code(object_type)),
            6 => ObjectClassType::Metric(MetricObjectType::of_code(object_type)),
            7 => ObjectClassType::Ero(EroObjectType::of_code(object_type)),
            9 => ObjectClassType::Lspa(LspaObjectType::of_code(object_type)),
            32 => ObjectClassType::Lsp(LspObjectType::of_code(object_type)),
            33 => ObjectClassType::Srp(SrpObjectType::of_code(object_type)),
            _ => ObjectClassType::Unknown((object_class, object_type)),
        }
    }

    /// Resolution depends on the pair alone, so resolving a pair twice gives
    /// equal results; and a pair whose class is not decoded here resolves to
    /// `Unknown` holding that very pair, while a pair of a class that is
    /// decoded here never resolves to `Unknown`.
    pub proof fn lemma_resolution(first: (u8, u8), second: (u8, u8))
        ensures
            first == second ==> ObjectClassType::resolve(first.0, first.1)
                == ObjectClassType::resolve(second.0, second.1),
            !ObjectClassType::is_known_class(first.0) ==> ObjectClassType::resolve(
                first.0,
                first.1,
            ) == ObjectClassType::Unknown(first),
            ObjectClassType::is_known_class(first.0) ==> !(ObjectClassType::resolve(
                first.0,
                first.1,
            ) is Unknown),
    {
    }
}

impl FromSpecImpl<(u8, u8)> for ObjectClassType {
    open spec fn obeys_from_spec() -> bool {
        true
    }

    open spec fn from_spec(value: (u8, u8)) -> ObjectClassType {
        ObjectClassType::resolve(value.0, value.1)
    }
}

impl From<(u8, u8)> for ObjectClassType {
    /// Resolves a pair of object class and object type.
    fn from(value: (u8, u8)) -> (class_type: ObjectClassType) {
        let object_class = value.0;
        let object_type = value.1;
        match object_class {
            1 => ObjectClassType::Open(OpenObjectType::from(object_type)),
            4 => ObjectClassType::EndPoints(EndpointsObjectType::from(object_type)),
            5 => ObjectClassType::Bandwidth(BandwidthObjectType::from(object_type)),
            6 => ObjectClassType::Metric(MetricObjectType::from(object_type)),
            7 => ObjectClassType::Ero(EroObjectType::from(object_type)),
            9 => ObjectClassType::Lspa(LspaObjectType::from(object_type)),
            32 => ObjectClassType::Lsp(LspObjectType::from(object_type)),
            33 => ObjectClassType::Srp(SrpObjectType::from(object_type)),
            _ => ObjectClassType::Unknown((object_class, object_type)),
        }
    }
}

} // verus!
