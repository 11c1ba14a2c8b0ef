//! The Segment-Routing sub-object.

use vstd::prelude::*;
use vstd::arithmetic::power2::lemma2_to64;
use crate::common::Ipv4Addr;
use crate::error::DecodeError;
use crate::error::Decoded;
use crate::error::SpecDecoded;
use crate::error::yields;
use crate::reader::be32;
use crate::reader::be_u32;
use crate::reader::bit_field;
use crate::reader::bit_set;
use crate::reader::prefix_value;
use crate::reader::take;
use crate::reader::take_bits;

verus! {

/// The Node or Adjacency Identifier of a segment, by its type.
#[non_exhaustive]
#[derive(Debug, PartialEq, Eq, Clone, Copy, Structural)]
pub enum NaiType {
    Absent,
    Ipv4Adj(Ipv4AdjNAI),
}

impl Default for NaiType {
    fn default() -> (nai_type: NaiType)
        ensures
            nai_type == NaiType::Absent,
    {
        NaiType::Absent
    }
}

impl NaiType {
    /// The kind of identifier that the 4-bit field `value` names, with no
    /// identifier decoded yet; `None` for a kind that has no decoder.
    pub open spec fn of_code(value: u8) -> Option<NaiType> {
        if value == 0 {
            Some(NaiType::Absent)
        } else if value == 3 {
            Some(NaiType::Ipv4Adj(Ipv4AdjNAI::spec_default()))
        } else {
            None
        }
    }

    /// The kind of identifier that `value` names; `Malformed` for a kind
    /// that has no decoder.
    pub fn try_from(value: u8) -> (r: Result<NaiType, DecodeError>)
        ensures
            r == match NaiType::of_code(value) {
                Some(nai_type) => Ok::<NaiType, DecodeError>(nai_type),
                None => Err(DecodeError::Malformed),
            },
    {
        match value {
            0 => Ok(NaiType::Absent),
            3 => Ok(NaiType::Ipv4Adj(Ipv4AdjNAI::default())),
            _ => Err(DecodeError::Malformed),
        }
    }
}

/// An IPv4 adjacency: the local and the remote address of a link.
#[derive(Debug, PartialEq, Eq, Clone, Copy, Structural)]
pub struct Ipv4AdjNAI {
    pub local_ipv4: Ipv4Addr,
    pub remote_ipv4: Ipv4Addr,
}

impl Default for Ipv4AdjNAI {
    fn default() -> (nai: Ipv4AdjNAI)
        ensures
            nai == Ipv4AdjNAI::spec_default(),
    {
        Ipv4AdjNAI { local_ipv4: Ipv4Addr::localhost(), remote_ipv4: Ipv4Addr::localhost() }
    }
}

impl Ipv4AdjNAI {
    /// The adjacency from the loopback address to itself: the placeholder
    /// of an adjacency that is not decoded yet.
    pub open spec fn spec_default() -> Ipv4AdjNAI {
        Ipv4AdjNAI {
            local_ipv4: Ipv4Addr::spec_localhost(),
            remote_ipv4: Ipv4Addr::spec_localhost(),
        }
    }

    /// Local address, then remote address, at the front of `s`.
    pub open spec fn spec_parse_ipv4_adj_nai(s: Seq<u8>) -> SpecDecoded<Ipv4AdjNAI> {
        if s.len() < 8 {
            Err(DecodeError::Incomplete)
        } else {
            Ok(
                (
                    s.skip(8),
                    Ipv4AdjNAI { local_ipv4: Ipv4Addr::at(s, 0), remote_ipv4: Ipv4Addr::at(s, 4) },
                ),
            )
        }
    }

    /// Decodes an IPv4 adjacency: two addresses of four bytes each.
    pub fn parse_ipv4_adj_nai<'a>(input: &'a [u8]) -> (r: Decoded<'a, Ipv4AdjNAI>)
        ensures
            yields(r, Ipv4AdjNAI::spec_parse_ipv4_adj_nai(input@)),
    {
        let (remaining, local_ipv4) = Ipv4Addr::parse(input)?;
        let (remaining, remote_ipv4) = Ipv4Addr::parse(remaining)?;
        assert(remaining@ == input@.skip(8));
        let ipv4_adj_nai = Ipv4AdjNAI { local_ipv4, remote_ipv4 };
        Ok((remaining, ipv4_adj_nai))
    }
}

/// The eight bits in the middle of a 16-bit word are the low four bits of
/// its first byte followed by the high four bits of its second.
proof fn lemma_middle_byte(b0: int, b1: int)
    requires
        0 <= b0 < 0x100,
        0 <= b1 < 0x100,
    ensures
        ((b0 * 0x100 + b1) / 0x10) % 0x100 == (b0 % 0x10) * 0x10 + b1 / 0x10,
{
    assert((b0 * 0x100 + b1) / 0x10 == b0 * 0x10 + b1 / 0x10);
    assert(b0 * 0x10 == (b0 / 0x10) * 0x100 + (b0 % 0x10) * 0x10);
}

/// A segment of a segment-routed path: its flags, its SID and its
/// identifier.
#[derive(Debug, PartialEq, Eq, Clone, Copy, Structural)]
pub struct SrSubobject {
    pub nai_type: NaiType,
    pub flag_f: bool,
    pub flag_s: bool,
    pub flag_c: bool,
    pub flag_m: bool,
    pub sid: u32,
}

impl Default for SrSubobject {
    fn default() -> (segment: SrSubobject)
        ensures
            segment == SrSubobject::spec_default(),
    {
        SrSubobject {
            nai_type: NaiType::Absent,
            flag_f: false,
            flag_s: false,
            flag_c: false,
            flag_m: false,
            sid: 0,
        }
    }
}

impl SrSubobject {
    /// The segment with no identifier, no flag and SID 0.
    pub open spec fn spec_default() -> SrSubobject {
        SrSubobject {
            nai_type: NaiType::Absent,
            flag_f: false,
            flag_s: false,
            flag_c: false,
            flag_m: false,
            sid: 0,
        }
    }

    /// The three fields packed into the first two bytes of `s`:
    ///
    /// ```text
    /// | NAI type(4b) | reserved(8b) | flags(4b) |
    /// ```
    pub open spec fn spec_parse_nt_res_flags(s: Seq<u8>) -> SpecDecoded<(u8, u8, u8)> {
        if s.len() < 2 {
            Err(DecodeError::Incomplete)
        } else {
            Ok(
                (
                    s.skip(2),
                    ((s[0] / 16) as u8, ((s[0] % 16) * 16 + s[1] / 16) as u8, (s[1] % 16) as u8),
                ),
            )
        }
    }

    /// The segment whose first six bytes are at the front of `s`, with the
    /// identifier `nai_type`: the flags F, S, C and M are the bits of
    /// weight 8, 4, 2 and 1 of the second byte, the SID is the 32-bit word
    /// after the packed fields.
    pub open spec fn with_nai(s: Seq<u8>, nai_type: NaiType) -> SrSubobject {
        SrSubobject {
            nai_type,
            flag_f: bit_set(s[1] as int, 8),
            flag_s: bit_set(s[1] as int, 4),
            flag_c: bit_set(s[1] as int, 2),
            flag_m: bit_set(s[1] as int, 1),
            sid: be32(s, 2) as u32,
        }
    }

    /// The value of a Segment-Routing sub-object at the front of `s`: the
    /// packed fields, the SID, and the identifier that the NAI type asks
    /// for.  Type 0 asks for none, type 3 for an IPv4 adjacency; any other
    /// type is malformed.
    pub open spec fn spec_parse_sr_subobject(s: Seq<u8>) -> SpecDecoded<SrSubobject> {
        if s.len() < 6 {
            Err(DecodeError::Incomplete)
        } else {
            match NaiType::of_code((s[0] / 16) as u8) {
                None => Err(DecodeError::Malformed),
                Some(NaiType::Absent) => Ok((s.skip(6), Self::with_nai(s, NaiType::Absent))),
                Some(NaiType::Ipv4Adj(_)) => match Ipv4AdjNAI::spec_parse_ipv4_adj_nai(s.skip(6)) {
                    Err(e) => Err(e),
                    Ok((rest, nai)) => Ok((rest, Self::with_nai(s, NaiType::Ipv4Adj(nai)))),
                },
            }
        }
    }

    /// Decodes the two bytes that pack the NAI type, the reserved bits and
    /// the flags.
    pub fn parse_nt_res_flags<'a>(input: &'a [u8]) -> (r: Decoded<'a, (u8, u8, u8)>)
        ensures
            yields(r, SrSubobject::spec_parse_nt_res_flags(input@)),
    {
        let (rest, group) = take(input, 2)?;
        proof {
            let last = group@.skip(1);
            lemma2_to64();
            reveal_with_fuel(prefix_value, 3);
            assert(prefix_value(group@, 1) == input@[0]);
            assert(prefix_value(group@, 2) == input@[0] * 0x100 + input@[1]);
            assert(prefix_value(last, 1) == input@[1]);
            assert(prefix_value(last, 1) / 1 == prefix_value(last, 1));
            assert(group@.skip(0) == group@);
            lemma_middle_byte(input@[0] as int, input@[1] as int);
            assert(bit_field(group@, 0, 4) == input@[0] / 16);
            assert(bit_field(group@, 4, 8) == (input@[0] % 16) * 16 + input@[1] / 16);
            assert(bit_field(last, 4, 4) == input@[1] % 16);
        }
        let (cursor, nai_type) = take_bits(group, 0, 4)?;
        let (cursor, reserved) = take_bits(cursor.0, cursor.1, 8)?;
        let (_, flags) = take_bits(cursor.0, cursor.1, 4)?;
        Ok((rest, (nai_type as u8, reserved as u8, flags as u8)))
    }

    /// Decodes the value of a Segment-Routing sub-object and returns it
    /// with the bytes after it.
    pub fn parse_sr_subobject<'a>(subobject_body: &'a [u8]) -> (r: Decoded<'a, SrSubobject>)
        ensures
            yields(r, SrSubobject::spec_parse_sr_subobject(subobject_body@)),
    {
        let ghost body = subobject_body@;
        let (subobject_body, nt_res_flags) = Self::parse_nt_res_flags(subobject_body)?;
        let (subobject_body, sid) = be_u32(subobject_body)?;
        assert(subobject_body@ == body.skip(6));
        let flags = nt_res_flags.2;
        assert((flags & 0b0000_1000 == 0b0000_1000) == bit_set(flags as int, 8)) by (bit_vector);
        assert((flags & 0b0000_0100 == 0b0000_0100) == bit_set(flags as int, 4)) by (bit_vector);
        assert((flags & 0b0000_0010 == 0b0000_0010) == bit_set(flags as int, 2)) by (bit_vector);
        assert((flags & 0b0000_0001 == 0b0000_0001) == bit_set(flags as int, 1)) by (bit_vector);
        let mut sr_subobject = SrSubobject {
            nai_type: NaiType::try_from(nt_res_flags.0)?,
            flag_f: flags & 0b0000_1000 == 0b0000_1000,
            flag_s: flags & 0b0000_0100 == 0b0000_0100,
            flag_c: flags & 0b0000_0010 == 0b0000_0010,
            flag_m: flags & 0b0000_0001 == 0b0000_0001,
            sid,
        };
        match sr_subobject.nai_type {
            NaiType::Absent => Ok((subobject_body, sr_subobject)),
            NaiType::Ipv4Adj(_) => {
                let (subobject_body, ipv4_adj_nai) = Ipv4AdjNAI::parse_ipv4_adj_nai(
                    subobject_body,
                )?;
                sr_subobject.nai_type = NaiType::Ipv4Adj(ipv4_adj_nai);
                Ok((subobject_body, sr_subobject))
            },
        }
    }
}

} // verus!
