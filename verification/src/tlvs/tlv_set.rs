//! The TLVs that are decoded field by field, and the fallback that keeps
//! the value of any other TLV as raw bytes.
//!
//! Each decoder starts after the 16-bit type code, at the 16-bit declared
//! length, and stops after the value: alignment padding is the list
//! decoder's business.

use vstd::prelude::*;
use vstd::slice::slice_to_vec;
use vstd::utf8::decode_utf8;
use vstd::utf8::encode_utf8_decode_utf8;
use vstd::utf8::valid_utf8;
use crate::common::Ipv4Addr;
use crate::error::DecodeError;
use crate::error::Decoded;
use crate::error::SpecDecoded;
use crate::error::yields;
use crate::error::yields_view;
use crate::reader::be16;
use crate::reader::be32;
use crate::reader::be_u16;
use crate::reader::be_u32;
use crate::reader::be_u8;
use crate::reader::bit_set;
use crate::reader::take;
use crate::reader::utf8_text;

verus! {

/// STATEFUL-PCE-CAPABILITY TLV (type 16): a 32-bit flag word.
#[derive(Debug, PartialEq, Eq, Clone, Copy, Structural)]
pub struct StatefulPCECapabilityTLV {
    pub tlv_type: u16,
    pub tlv_len: u16,
    pub flag_lsp_update_capability: bool,
    pub flag_include_db_version: bool,
    pub flag_lsp_instantiate_capability: bool,
    pub flag_triggered_resync: bool,
    pub flag_delta_lsp_sync_capability: bool,
    pub flag_triggered_initial_sync: bool,
}

impl Default for StatefulPCECapabilityTLV {
    fn default() -> (tlv: StatefulPCECapabilityTLV)
        ensures
            tlv == StatefulPCECapabilityTLV::spec_default(),
    {
        StatefulPCECapabilityTLV {
            tlv_type: 0,
            tlv_len: 0,
            flag_lsp_update_capability: false,
            flag_include_db_version: false,
            flag_lsp_instantiate_capability: false,
            flag_triggered_resync: false,
            flag_delta_lsp_sync_capability: false,
            flag_triggered_initial_sync: false,
        }
    }
}

impl StatefulPCECapabilityTLV {
    /// The TLV with every field zero or false.
    pub open spec fn spec_default() -> StatefulPCECapabilityTLV {
        StatefulPCECapabilityTLV {
            tlv_type: 0,
            tlv_len: 0,
            flag_lsp_update_capability: false,
            flag_include_db_version: false,
            flag_lsp_instantiate_capability: false,
            flag_triggered_resync: false,
            flag_delta_lsp_sync_capability: false,
            flag_triggered_initial_sync: false,
        }
    }

    /// Declared length, then the flag word, whose six lowest bits are the
    /// six capabilities, the LSP-update capability being the lowest.
    pub open spec fn spec_parse_tlv(s: Seq<u8>) -> SpecDecoded<StatefulPCECapabilityTLV> {
        if s.len() < 6 {
            Err(DecodeError::Incomplete)
        } else {
            Ok(
                (
                    s.skip(6),
                    StatefulPCECapabilityTLV {
                        tlv_type: 16,
                        tlv_len: be16(s, 0) as u16,
                        flag_lsp_update_capability: bit_set(be32(s, 2), 1),
                        flag_include_db_version: bit_set(be32(s, 2), 2),
                        flag_lsp_instantiate_capability: bit_set(be32(s, 2), 4),
                        flag_triggered_resync: bit_set(be32(s, 2), 8),
                        flag_delta_lsp_sync_capability: bit_set(be32(s, 2), 16),
                        flag_triggered_initial_sync: bit_set(be32(s, 2), 32),
                    },
                ),
            )
        }
    }

    /// Decodes the TLV from its declared length on.
    pub fn parse_tlv<'a>(input: &'a [u8]) -> (r: Decoded<'a, StatefulPCECapabilityTLV>)
        ensures
            yields(r, StatefulPCECapabilityTLV::spec_parse_tlv(input@)),
    {
        let (remaining, tlv_len) = be_u16(input)?;
        let (remaining, flags) = be_u32(remaining)?;
        assert(remaining@ == input@.skip(6));
        assert((flags & 0b00_0001 == 0b00_0001) == bit_set(flags as int, 1)) by (bit_vector);
        assert((flags & 0b00_0010 == 0b00_0010) == bit_set(flags as int, 2)) by (bit_vector);
        assert((flags & 0b00_0100 == 0b00_0100) == bit_set(flags as int, 4)) by (bit_vector);
        assert((flags & 0b00_1000 == 0b00_1000) == bit_set(flags as int, 8)) by (bit_vector);
        assert((flags & 0b01_0000 == 0b01_0000) == bit_set(flags as int, 16)) by (bit_vector);
        assert((flags & 0b10_0000 == 0b10_0000) == bit_set(flags as int, 32)) by (bit_vector);
        let tlv = StatefulPCECapabilityTLV {
            tlv_type: 16,
            tlv_len,
            flag_lsp_update_capability: flags & 0b00_0001 == 0b00_0001,
            flag_include_db_version: flags & 0b00_0010 == 0b00_0010,
            flag_lsp_instantiate_capability: flags & 0b00_0100 == 0b00_0100,
            flag_triggered_resync: flags & 0b00_1000 == 0b00_1000,
            flag_delta_lsp_sync_capability: flags & 0b01_0000 == 0b01_0000,
            flag_triggered_initial_sync: flags & 0b10_0000 == 0b10_0000,
        };
        Ok((remaining, tlv))
    }
}

/// SR-PCE-CAPABILITY TLV (type 26): reserved bits, flags, and the maximum
/// SID depth.
#[derive(Debug, PartialEq, Eq, Clone, Copy, Structural)]
pub struct SrPCECapabilityTLV {
    pub tlv_type: u16,
    pub tlv_len: u16,
    pub reserved: u16,
    pub flag_limit: bool,
    pub max_sid_depth: u8,
}

impl Default for SrPCECapabilityTLV {
    fn default() -> (tlv: SrPCECapabilityTLV)
        ensures
            tlv == SrPCECapabilityTLV::spec_default(),
    {
        SrPCECapabilityTLV {
            tlv_type: 0,
            tlv_len: 0,
            reserved: 0,
            flag_limit: false,
            max_sid_depth: 0,
        }
    }
}

impl SrPCECapabilityTLV {
    /// The TLV with every field zero or false.
    pub open spec fn spec_default() -> SrPCECapabilityTLV {
        SrPCECapabilityTLV {
            tlv_type: 0,
            tlv_len: 0,
            reserved: 0,
            flag_limit: false,
            max_sid_depth: 0,
        }
    }

    /// Declared length, 16 reserved bits, a flags byte whose lowest bit is
    /// the limit flag, and the maximum SID depth.
    pub open spec fn spec_parse_tlv(s: Seq<u8>) -> SpecDecoded<SrPCECapabilityTLV> {
        if s.len() < 6 {
            Err(DecodeError::Incomplete)
        } else {
            Ok(
                (
                    s.skip(6),
                    SrPCECapabilityTLV {
                        tlv_type: 26,
                        tlv_len: be16(s, 0) as u16,
                        reserved: be16(s, 2) as u16,
                        flag_limit: bit_set(s[4] as int, 1),
                        max_sid_depth: s[5],
                    },
                ),
            )
        }
    }

    /// Decodes the TLV from its declared length on.
    pub fn parse_tlv<'a>(input: &'a [u8]) -> (r: Decoded<'a, SrPCECapabilityTLV>)
        ensures
            yields(r, SrPCECapabilityTLV::spec_parse_tlv(input@)),
    {
        let (remaining, tlv_len) = be_u16(input)?;
        let (remaining, reserved) = be_u16(remaining)?;
        let (remaining, flags) = be_u8(remaining)?;
        let (remaining, max_sid_depth) = be_u8(remaining)?;
        assert(remaining@ == input@.skip(6));
        assert((flags & 0b1 == 0b1) == bit_set(flags as int, 1)) by (bit_vector);
        let tlv = SrPCECapabilityTLV {
            tlv_type: 26,
            tlv_len,
            reserved,
            flag_limit: flags & 0b1 == 0b1,
            max_sid_depth,
        };
        Ok((remaining, tlv))
    }
}

/// A TLV of a type that has no decoder of its own: the declared length and
/// the value, byte for byte.
#[derive(Debug, PartialEq, Eq)]
pub struct UnknownTLV {
    pub tlv_type: u16,
    pub tlv_len: u16,
    pub tlv_data: Vec<u8>,
}

/// The value of an `UnknownTLV`.
pub struct UnknownTLVView {
    pub tlv_type: u16,
    pub tlv_len: u16,
    pub tlv_data: Seq<u8>,
}

impl View for UnknownTLV {
    type V = UnknownTLVView;

    open spec fn view(&self) -> UnknownTLVView {
        UnknownTLVView { tlv_type: self.tlv_type, tlv_len: self.tlv_len, tlv_data: self.tlv_data@ }
    }
}

impl Default for UnknownTLV {
    fn default() -> (tlv: UnknownTLV)
        ensures
            tlv@ == UnknownTLV::spec_default(),
    {
        UnknownTLV { tlv_type: 0, tlv_len: 0, tlv_data: Vec::new() }
    }
}

impl UnknownTLV {
    /// The TLV of type 0 with no value.
    pub open spec fn spec_default() -> UnknownTLVView {
        UnknownTLVView { tlv_type: 0, tlv_len: 0, tlv_data: Seq::empty() }
    }

    /// Declared length, then that many bytes of value, kept as they are.
    /// The type code is not part of the input: it is left 0.
    pub open spec fn spec_parse_tlv(s: Seq<u8>) -> SpecDecoded<UnknownTLVView> {
        if s.len() < 2 {
            Err(DecodeError::Incomplete)
        } else if s.len() - 2 < be16(s, 0) {
            Err(DecodeError::Incomplete)
        } else {
            Ok(
                (
                    s.skip(2 + be16(s, 0)),
                    UnknownTLVView {
                        tlv_type: 0,
                        tlv_len: be16(s, 0) as u16,
                        tlv_data: s.subrange(2, 2 + be16(s, 0)),
                    },
                ),
            )
        }
    }

    /// Decodes the TLV from its declared length on.  The caller, who read
    /// the type code, fills in `tlv_type`.
    pub fn parse_tlv<'a>(input: &'a [u8]) -> (r: Decoded<'a, UnknownTLV>)
        ensures
            yields_view(r, UnknownTLV::spec_parse_tlv(input@)),
    {
        let (remaining, tlv_len) = be_u16(input)?;
        let (remaining, tlv_data) = take(remaining, tlv_len as usize)?;
        let tlv_data = slice_to_vec(tlv_data);
        let unknown_tlv = UnknownTLV { tlv_type: 0, tlv_len, tlv_data };
        assert(remaining@ == input@.skip(2 + be16(input@, 0)));
        assert(unknown_tlv.tlv_data@ == input@.subrange(2, 2 + be16(input@, 0)));
        Ok((remaining, unknown_tlv))
    }
}

/// SYMBOLIC-PATH-NAME TLV (type 17): the name of an LSP, as UTF-8 text.
#[derive(Debug, PartialEq, Eq)]
pub struct SymbolicPathNameTLV {
    pub tlv_type: u16,
    pub tlv_len: u16,
    pub symbolic_path_name: String,
}

/// The value of a `SymbolicPathNameTLV`.
pub struct SymbolicPathNameTLVView {
    pub tlv_type: u16,
    pub tlv_len: u16,
    pub symbolic_path_name: Seq<char>,
}

impl View for SymbolicPathNameTLV {
    type V = SymbolicPathNameTLVView;

    open spec fn view(&self) -> SymbolicPathNameTLVView {
        SymbolicPathNameTLVView {
            tlv_type: self.tlv_type,
            tlv_len: self.tlv_len,
            symbolic_path_name: self.symbolic_path_name@,
        }
    }
}

impl Default for SymbolicPathNameTLV {
    fn default() -> (tlv: SymbolicPathNameTLV)
        ensures
            tlv@ == SymbolicPathNameTLV::spec_default(),
    {
        SymbolicPathNameTLV { tlv_type: 0, tlv_len: 0, symbolic_path_name: String::new() }
    }
}

impl SymbolicPathNameTLV {
    /// The TLV of type 0 with the empty name.
    pub open spec fn spec_default() -> SymbolicPathNameTLVView {
        SymbolicPathNameTLVView { tlv_type: 0, tlv_len: 0, symbolic_path_name: Seq::empty() }
    }

    /// Declared length, then that many bytes of value, which must be the
    /// UTF-8 encoding of the name.
    pub open spec fn spec_parse_tlv(s: Seq<u8>) -> SpecDecoded<SymbolicPathNameTLVView> {
        if s.len() < 2 {
            Err(DecodeError::Incomplete)
        } else if s.len() - 2 < be16(s, 0) {
            Err(DecodeError::Incomplete)
        } else if !valid_utf8(s.subrange(2, 2 + be16(s, 0))) {
            Err(DecodeError::Malformed)
        } else {
            Ok(
                (
                    s.skip(2 + be16(s, 0)),
                    SymbolicPathNameTLVView {
                        tlv_type: 17,
                        tlv_len: be16(s, 0) as u16,
                        symbolic_path_name: decode_utf8(s.subrange(2, 2 + be16(s, 0))),
                    },
                ),
            )
        }
    }

    /// Decodes the TLV from its declared length on.
    pub fn parse_tlv<'a>(input: &'a [u8]) -> (r: Decoded<'a, SymbolicPathNameTLV>)
        ensures
            yields_view(r, SymbolicPathNameTLV::spec_parse_tlv(input@)),
    {
        let (remaining, tlv_len) = be_u16(input)?;
        let (remaining, value) = take(remaining, tlv_len as usize)?;
        assert(remaining@ == input@.skip(2 + be16(input@, 0)));
        assert(value@ == input@.subrange(2, 2 + be16(input@, 0)));
        match utf8_text(value) {
            None => Err(DecodeError::Malformed),
            Some(name) => {
                proof {
                    encode_utf8_decode_utf8(name@);
                }
                let tlv = SymbolicPathNameTLV {
                    tlv_type: 17,
                    tlv_len,
                    symbolic_path_name: name.to_owned(),
                };
                Ok((remaining, tlv))
            },
        }
    }
}

/// IPV4-LSP-IDENTIFIERS TLV (type 18).
#[derive(Debug, PartialEq, Eq, Clone, Copy, Structural)]
pub struct Ipv4LSPIndetifiersTLV {
    pub tlv_type: u16,
    pub tlv_len: u16,
    pub tunnel_sender_address: Ipv4Addr,
    pub lsp_id: u16,
    pub tunnel_id: u16,
    pub extended_tunnel_id: u32,
    pub tunnel_endpoint_address: Ipv4Addr,
}

impl Default for Ipv4LSPIndetifiersTLV {
    fn default() -> (tlv: Ipv4LSPIndetifiersTLV)
        ensures
            tlv == Ipv4LSPIndetifiersTLV::spec_default(),
    {
        Ipv4LSPIndetifiersTLV {
            tlv_type: 18,
            tlv_len: 0,
            tunnel_sender_address: Ipv4Addr::localhost(),
            lsp_id: 0,
            tunnel_id: 0,
            extended_tunnel_id: 0,
            tunnel_endpoint_address: Ipv4Addr::localhost(),
        }
    }
}

impl Ipv4LSPIndetifiersTLV {
    /// The TLV of type 18 with no value yet: both addresses are the
    /// loopback address, every number is 0.
    pub open spec fn spec_default() -> Ipv4LSPIndetifiersTLV {
        Ipv4LSPIndetifiersTLV {
            tlv_type: 18,
            tlv_len: 0,
            tunnel_sender_address: Ipv4Addr::spec_localhost(),
            lsp_id: 0,
            tunnel_id: 0,
            extended_tunnel_id: 0,
            tunnel_endpoint_address: Ipv4Addr::spec_localhost(),
        }
    }

    /// Declared length, sender address, LSP-ID, tunnel-ID, extended
    /// tunnel-ID and endpoint address.
    pub open spec fn spec_parse_tlv(s: Seq<u8>) -> SpecDecoded<Ipv4LSPIndetifiersTLV> {
        if s.len() < 18 {
            Err(DecodeError::Incomplete)
        } else {
            Ok(
                (
                    s.skip(18),
                    Ipv4LSPIndetifiersTLV {
                        tlv_type: 18,
                        tlv_len: be16(s, 0) as u16,
                        tunnel_sender_address: Ipv4Addr::at(s, 2),
                        lsp_id: be16(s, 6) as u16,
                        tunnel_id: be16(s, 8) as u16,
                        extended_tunnel_id: be32(s, 10) as u32,
                        tunnel_endpoint_address: Ipv4Addr::at(s, 14),
                    },
                ),
            )
        }
    }

    /// Decodes the TLV from its declared length on.
    pub fn parse_tlv<'a>(input: &'a [u8]) -> (r: Decoded<'a, Ipv4LSPIndetifiersTLV>)
        ensures
            yields(r, Ipv4LSPIndetifiersTLV::spec_parse_tlv(input@)),
    {
        let (remaining, tlv_len) = be_u16(input)?;
        let (remaining, tunnel_sender_address) = Ipv4Addr::parse(remaining)?;
        let (remaining, lsp_id) = be_u16(remaining)?;
        let (remaining, tunnel_id) = be_u16(remaining)?;
        let (remaining, extended_tunnel_id) = be_u32(remaining)?;
        let (remaining, tunnel_endpoint_address) = Ipv4Addr::parse(remaining)?;
        assert(remaining@ == input@.skip(18));
        let tlv = Ipv4LSPIndetifiersTLV {
            tlv_type: 18,
            tlv_len,
            tunnel_sender_address,
            lsp_id,
            tunnel_id,
            extended_tunnel_id,
            tunnel_endpoint_address,
        };
        Ok((remaining, tlv))
    }
}

} // verus!
