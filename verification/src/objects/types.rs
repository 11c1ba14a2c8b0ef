//! Object types: the 4-bit field that, within an object class, names the
//! layout of the object body.

use vstd::prelude::*;
use vstd::std_specs::convert::FromSpecImpl;

verus! {

/// Types of the Open object (class 1).  The values after the named ones are
/// unassigned.
#[non_exhaustive]
#[derive(Debug, PartialEq, Eq, Clone, Copy, Structural)]
pub enum OpenObjectType {
    Reserved,
    Open,
    UnAssigned,
}

impl OpenObjectType {
    /// The type that the 4-bit field `value` names.
    pub open spec fn of_code(value: u8) -> OpenObjectType {
        match value {
            0 => OpenObjectType::Reserved,
            1 => OpenObjectType::Open,
            _ => OpenObjectType::UnAssigned,
        }
    }
}

impl FromSpecImpl<u8> for OpenObjectType {
    open spec fn obeys_from_spec() -> bool {
        true
    }

    open spec fn from_spec(value: u8) -> OpenObjectType {
        OpenObjectType::of_code(value)
    }
}

impl From<u8> for OpenObjectType {
    fn from(value: u8) -> (object_type: OpenObjectType) {
        match value {
            0 => OpenObjectType::Reserved,
            1 => OpenObjectType::Open,
            _ => OpenObjectType::UnAssigned,
        }
    }
}

/// Types of the SRP object (class 33).  The values after the named ones are
/// unassigned.
#[non_exhaustive]
#[derive(Debug, PartialEq, Eq, Clone, Copy, Structural)]
pub enum SrpObjectType {
    Reserved,
    Srp,
    UnAssigned,
}

impl SrpObjectType {
    /// The type that the 4-bit field `value` names.
    pub open spec fn of_code(value: u8) -> SrpObjectType {
        match value {
            0 => SrpObjectType::Reserved,
            1 => SrpObjectType::Srp,
            _ => SrpObjectType::UnAssigned,
        }
    }
}

impl FromSpecImpl<u8> for SrpObjectType {
    open spec fn obeys_from_spec() -> bool {
        true
    }

    open spec fn from_spec(value: u8) -> SrpObjectType {
        SrpObjectType::of_code(value)
    }
}

impl From<u8> for SrpObjectType {
    fn from(value: u8) -> (object_type: SrpObjectType) {
        match value {
            0 => SrpObjectType::Reserved,
            1 => SrpObjectType::Srp,
            _ => SrpObjectType::UnAssigned,
        }
    }
}

/// Types of the LSP object (class 32).  The values after the named ones are
/// unassigned.
#[non_exhaustive]
#[derive(Debug, PartialEq, Eq, Clone, Copy, Structural)]
pub enum LspObjectType {
    Reserved,
    Lsp,
    UnAssigned,
}

impl LspObjectType {
    /// The type that the 4-bit field `value` names.
    pub open spec fn of_code(value: u8) -> LspObjectType {
        match value {
            0 => LspObjectType::Reserved,
            1 => LspObjectType::Lsp,
            _ => LspObjectType::UnAssigned,
        }
    }
}

impl FromSpecImpl<u8> for LspObjectType {
    open spec fn obeys_from_spec() -> bool {
        true
    }

    open spec fn from_spec(value: u8) -> LspObjectType {
        LspObjectType::of_code(value)
    }
}

impl From<u8> for LspObjectType {
    fn from(value: u8) -> (object_type: LspObjectType) {
        match value {
            0 => LspObjectType::Reserved,
            1 => LspObjectType::Lsp,
            _ => LspObjectType::UnAssigned,
        }
    }
}

/// Types of the Bandwidth object (class 5).  The values after the named ones are
/// unassigned.
#[non_exhaustive]
#[derive(Debug, PartialEq, Eq, Clone, Copy, Structural)]
pub enum BandwidthObjectType {
    Reserved,
    Requested,
    RequestedOpt,
    Genric,
    GenericOpt,
    UnAssigned,
}

impl BandwidthObjectType {
    /// The type that the 4-bit field `value` names.
    pub open spec fn of_code(value: u8) -> BandwidthObjectType {
        match value {
            0 => BandwidthObjectType::Reserved,
            1 => BandwidthObjectType::Requested,
            2 => BandwidthObjectType::RequestedOpt,
            3 => BandwidthObjectType::Genric,
            4 => BandwidthObjectType::GenericOpt,
            _ => BandwidthObjectType::UnAssigned,
        }
    }
}

impl FromSpecImpl<u8> for BandwidthObjectType {
    open spec fn obeys_from_spec() -> bool {
        true
    }

    open spec fn from_spec(value: u8) -> BandwidthObjectType {
        BandwidthObjectType::of_code(value)
    }
}

impl From<u8> for BandwidthObjectType {
    fn from(value: u8) -> (object_type: BandwidthObjectType) {
        match value {
            0 => BandwidthObjectType::Reserved,
            1 => BandwidthObjectType::Requested,
            2 => BandwidthObjectType::RequestedOpt,
            3 => BandwidthObjectType::Genric,
            4 => BandwidthObjectType::GenericOpt,
            _ => BandwidthObjectType::UnAssigned,
        }
    }
}

/// Types of the LSPA object (class 9).  The values after the named ones are
/// unassigned.
#[non_exhaustive]
#[derive(Debug, PartialEq, Eq, Clone, Copy, Structural)]
pub enum LspaObjectType {
    Reserved,
    Lspa,
    Unassigned,
}

impl LspaObjectType {
    /// The type that the 4-bit field `value` names.
    pub open spec fn of_code(value: u8) -> LspaObjectType {
        match value {
            0 => LspaObjectType::Reserved,
            1 => LspaObjectType::Lspa,
            _ => LspaObjectType::Unassigned,
        }
    }
}

impl FromSpecImpl<u8> for LspaObjectType {
    open spec fn obeys_from_spec() -> bool {
        true
    }

    open spec fn from_spec(value: u8) -> LspaObjectType {
        LspaObjectType::of_code(value)
    }
}

impl From<u8> for LspaObjectType {
    fn from(value: u8) -> (object_type: LspaObjectType) {
        match value {
            0 => LspaObjectType::Reserved,
            1 => LspaObjectType::Lspa,
            _ => LspaObjectType::Unassigned,
        }
    }
}

/// Types of the Metric object (class 6).  The values after the named ones are
/// unassigned.
#[non_exhaustive]
#[derive(Debug, PartialEq, Eq, Clone, Copy, Structural)]
pub enum MetricObjectType {
    Reserved,
    Metric,
    Unassigned,
}

impl MetricObjectType {
    /// The type that the 4-bit field `value` names.
    pub open spec fn of_code(value: u8) -> MetricObjectType {
        match value {
            0 => MetricObjectType::Reserved,
            1 => MetricObjectType::Metric,
            _ => MetricObjectType::Unassigned,
        }
    }
}

impl FromSpecImpl<u8> for MetricObjectType {
    open spec fn obeys_from_spec() -> bool {
        true
    }

    open spec fn from_spec(value: u8) -> MetricObjectType {
        MetricObjectType::of_code(value)
    }
}

impl From<u8> for MetricObjectType {
    fn from(value: u8) -> (object_type: MetricObjectType) {
        match value {
            0 => MetricObjectType::Reserved,
            1 => MetricObjectType::Metric,
            _ => MetricObjectType::Unassigned,
        }
    }
}

/// Types of the ERO object (class 7).  The values after the named ones are
/// unassigned.
#[non_exhaustive]
#[derive(Debug, PartialEq, Eq, Clone, Copy, Structural)]
pub enum EroObjectType {
    Reserved,
    Ero,
    Unassigned,
}

impl EroObjectType {
    /// The type that the 4-bit field `value` names.
    pub open spec fn of_code(value: u8) -> EroObjectType {
        match value {
            0 => EroObjectType::Reserved,
            1 => EroObjectType::Ero,
            _ => EroObjectType::Unassigned,
        }
    }
}

impl FromSpecImpl<u8> for EroObjectType {
    open spec fn obeys_from_spec() -> bool {
        true
    }

    open spec fn from_spec(value: u8) -> EroObjectType {
        EroObjectType::of_code(value)
    }
}

impl From<u8> for EroObjectType {
    fn from(value: u8) -> (object_type: EroObjectType) {
        match value {
            0 => EroObjectType::Reserved,
            1 => EroObjectType::Ero,
            _ => EroObjectType::Unassigned,
        }
    }
}

/// Types of the End-Points object (class 4).  The values after the named ones are
/// unassigned.
#[non_exhaustive]
#[derive(Debug, PartialEq, Eq, Clone, Copy, Structural)]
pub enum EndpointsObjectType {
    Reserved,
    Ipv4Addresses,
    Ipv6Addresses,
    Ipv4,
    Ipv6,
    Generalized,
    Unassigned,
}

impl EndpointsObjectType {
    /// The type that the 4-bit field `value` names.
    pub open spec fn of_code(value: u8) -> EndpointsObjectType {
        match value {
            0 => EndpointsObjectType::Reserved,
            1 => EndpointsObjectType::Ipv4Addresses,
            2 => EndpointsObjectType::Ipv6Addresses,
            3 => EndpointsObjectType::Ipv4,
            4 => EndpointsObjectType::Ipv6,
            5 => EndpointsObjectType::Generalized,
            _ => EndpointsObjectType::Unassigned,
        }
    }
}

impl FromSpecImpl<u8> for EndpointsObjectType {
    open spec fn obeys_from_spec() -> bool {
        true
    }

    open spec fn from_spec(value: u8) -> EndpointsObjectType {
        EndpointsObjectType::of_code(value)
    }
}

impl From<u8> for EndpointsObjectType {
    fn from(value: u8) -> (object_type: EndpointsObjectType) {
        match value {
            0 => EndpointsObjectType::Reserved,
            1 => EndpointsObjectType::Ipv4Addresses,
            2 => EndpointsObjectType::Ipv6Addresses,
            3 => EndpointsObjectType::Ipv4,
            4 => EndpointsObjectType::Ipv6,
            5 => EndpointsObjectType::Generalized,
            _ => EndpointsObjectType::Unassigned,
        }
    }
}

} // verus!
