//! The TLV as a tagged union over the decoded kinds.

use vstd::prelude::*;
use crate::tlvs::tlv_set::Ipv4LSPIndetifiersTLV;
use crate::tlvs::tlv_set::SrPCECapabilityTLV;
use crate::tlvs::tlv_set::StatefulPCECapabilityTLV;
use crate::tlvs::tlv_set::SymbolicPathNameTLV;
use crate::tlvs::tlv_set::SymbolicPathNameTLVView;
use crate::tlvs::tlv_set::UnknownTLV;
use crate::tlvs::tlv_set::UnknownTLVView;

verus! {

/// A decoded TLV.  A type code without a decoder of its own gives
/// `Unknown`, which keeps the code and the raw value.
#[non_exhaustive]
#[derive(Debug, PartialEq, Eq)]
pub enum Tlv {
    StatefulPCECapability(StatefulPCECapabilityTLV),
    SrPCECapability(SrPCECapabilityTLV),
    SymbolicPathName(SymbolicPathNameTLV),
    Ipv4LSPIndetifiers(Ipv4LSPIndetifiersTLV),
    Unknown(UnknownTLV),
}

/// The value of a `Tlv`.
pub enum TlvView {
    StatefulPCECapability(StatefulPCECapabilityTLV),
    SrPCECapability(SrPCECapabilityTLV),
    SymbolicPathName(SymbolicPathNameTLVView),
    Ipv4LSPIndetifiers(Ipv4LSPIndetifiersTLV),
    Unknown(UnknownTLVView),
}

impl View for Tlv {
    type V = TlvView;

    open spec fn view(&self) -> TlvView {
        match *self {
            Tlv::StatefulPCECapability(tlv) => TlvView::StatefulPCECapability(tlv),
            Tlv::SrPCECapability(tlv) => TlvView::SrPCECapability(tlv),
            Tlv::SymbolicPathName(tlv) => TlvView::SymbolicPathName(tlv@),
            Tlv::Ipv4LSPIndetifiers(tlv) => TlvView::Ipv4LSPIndetifiers(tlv),
            Tlv::Unknown(tlv) => TlvView::Unknown(tlv@),
        }
    }
}

/// The values of a list of TLVs, in the order of the list.
pub open spec fn tlv_views(tlvs: Seq<Tlv>) -> Seq<TlvView> {
    tlvs.map_values(|tlv: Tlv| tlv@)
}

/// The values of an optional list of TLVs.
pub open spec fn optional_tlv_views(tlvs: Option<Vec<Tlv>>) -> Option<Seq<TlvView>> {
    match tlvs {
        Some(list) => Some(tlv_views(list@)),
        None => None,
    }
}

impl Tlv {
    /// The kind of TLV that `value` names, with nothing decoded yet.
    pub open spec fn spec_from(value: u16) -> TlvView {
        match value {
            16 => TlvView::StatefulPCECapability(StatefulPCECapabilityTLV::spec_default()),
            17 => TlvView::SymbolicPathName(SymbolicPathNameTLV::spec_default()),
            18 => TlvView::Ipv4LSPIndetifiers(Ipv4LSPIndetifiersTLV::spec_default()),
            26 => TlvView::SrPCECapability(SrPCECapabilityTLV::spec_default()),
            _ => TlvView::Unknown(UnknownTLV::spec_default()),
        }
    }

    /// The kind of TLV that the type code `value` names, as a TLV of that
    /// kind with default contents.  Decoders dispatch on its variant.
    pub fn from(value: u16) -> (tlv: Tlv)
        ensures
            tlv@ == Tlv::spec_from(value),
    {
        match value {
            16 => Tlv::StatefulPCECapability(StatefulPCECapabilityTLV::default()),
            17 => Tlv::SymbolicPathName(SymbolicPathNameTLV::default()),
            18 => Tlv::Ipv4LSPIndetifiers(Ipv4LSPIndetifiersTLV::default()),
            26 => Tlv::SrPCECapability(SrPCECapabilityTLV::default()),
            _ => Tlv::Unknown(UnknownTLV::default()),
        }
    }
}

} // verus!
