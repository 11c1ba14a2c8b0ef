//! The TLV decoder: one TLV with its padding, and lists of TLVs.

use vstd::prelude::*;
use crate::common::Utils;
use crate::common::padding_len;
use crate::common::spec_consume_padding;
use crate::error::DecodeError;
use crate::error::Decoded;
use crate::error::SpecDecoded;
use crate::error::yields_view;
use crate::reader::be16;
use crate::reader::be_u16;
use crate::reader::spec_be_u16;
use crate::reader::take;
use crate::tlvs::tlv_set::Ipv4LSPIndetifiersTLV;
use crate::tlvs::tlv_set::SrPCECapabilityTLV;
use crate::tlvs::tlv_set::StatefulPCECapabilityTLV;
use crate::tlvs::tlv_set::SymbolicPathNameTLV;
use crate::tlvs::tlv_set::UnknownTLV;
use crate::tlvs::tlv_set::UnknownTLVView;
use crate::tlvs::types::Tlv;
use crate::tlvs::types::TlvView;
use crate::tlvs::types::optional_tlv_views;
use crate::tlvs::types::tlv_views;

verus! {

/// What is left of `s` once the padding of `len` bytes of content has been
/// consumed.  Where `s` ends before the padding does, nothing is consumed.
pub open spec fn spec_handle_padding(len: nat, s: Seq<u8>) -> Seq<u8> {
    if s.len() < padding_len(len) {
        s
    } else {
        s.skip(padding_len(len) as int)
    }
}

/// What is left after the padding is what the padding resolver returns as
/// the rest, and the resolver never fails.
pub proof fn lemma_padding_resolver_never_fails(len: nat, s: Seq<u8>)
    ensures
        spec_consume_padding(len, s) matches Ok((rest, padding)) && rest == spec_handle_padding(
            len,
            s,
        ) && padding + rest == s && (s.len() < padding_len(len) ==> rest == s && padding.len()
            == 0),
{
    let (rest, padding) = spec_consume_padding(len, s)->Ok_0;
    assert(padding + rest =~= s);
}

/// Adds what happens after the value of a TLV: the padding sized by the
/// declared length is consumed.
pub open spec fn spec_padded(declared_len: u16, rest: Seq<u8>, tlv: TlvView) -> SpecDecoded<
    TlvView,
> {
    Ok((spec_handle_padding(declared_len as nat, rest), tlv))
}

/// One TLV at the front of `s`: the type code, the body as the decoder of
/// that type reads it, and the padding.  A type code other than 16, 17, 18
/// and 26 gives `Unknown` with that code and the value bytes as they are.
pub open spec fn spec_parse_tlv(s: Seq<u8>) -> SpecDecoded<TlvView> {
    match spec_be_u16(s) {
        Err(e) => Err(e),
        Ok((body, tlv_type)) => {
            if tlv_type == 16 {
                match StatefulPCECapabilityTLV::spec_parse_tlv(body) {
                    Err(e) => Err(e),
                    Ok((rest, tlv)) => spec_padded(
                        tlv.tlv_len,
                        rest,
                        TlvView::StatefulPCECapability(tlv),
                    ),
                }
            } else if tlv_type == 26 {
                match SrPCECapabilityTLV::spec_parse_tlv(body) {
                    Err(e) => Err(e),
                    Ok((rest, tlv)) => spec_padded(
                        tlv.tlv_len,
                        rest,
                        TlvView::SrPCECapability(tlv),
                    ),
                }
            } else if tlv_type == 17 {
                match SymbolicPathNameTLV::spec_parse_tlv(body) {
                    Err(e) => Err(e),
                    Ok((rest, tlv)) => spec_padded(
                        tlv.tlv_len,
                        rest,
                        TlvView::SymbolicPathName(tlv),
                    ),
                }
            } else if tlv_type == 18 {
                match Ipv4LSPIndetifiersTLV::spec_parse_tlv(body) {
                    Err(e) => Err(e),
                    Ok((rest, tlv)) => spec_padded(
                        tlv.tlv_len,
                        rest,
                        TlvView::Ipv4LSPIndetifiers(tlv),
                    ),
                }
            } else {
                match UnknownTLV::spec_parse_tlv(body) {
                    Err(e) => Err(e),
                    Ok((rest, tlv)) => spec_padded(
                        tlv.tlv_len,
                        rest,
                        TlvView::Unknown(UnknownTLVView { tlv_type, ..tlv }),
                    ),
                }
            }
        },
    }
}

/// The TLVs of the window `s`, in wire order.  The list ends where the
/// window ends, or where one more TLV would be incomplete; a malformed TLV
/// makes the whole list malformed.
pub open spec fn spec_parse_tlvs(s: Seq<u8>) -> Result<Seq<TlvView>, DecodeError>
    decreases s.len(),
{
    if s.len() == 0 {
        Ok(Seq::empty())
    } else {
        match spec_parse_tlv(s) {
            Err(DecodeError::Incomplete) => Ok(Seq::empty()),
            Err(DecodeError::Malformed) => Err(DecodeError::Malformed),
            Ok((rest, tlv)) => {
                if rest.len() < s.len() {
                    match spec_parse_tlvs(rest) {
                        Ok(tlvs) => Ok(seq![tlv] + tlvs),
                        Err(e) => Err(e),
                    }
                } else {
                    Ok(seq![tlv])
                }
            },
        }
    }
}

/// The TLV list of an object body: absent where no byte follows the fixed
/// fields, else the TLVs of the bytes that do.
pub open spec fn spec_parse_optional_tlvs(s: Seq<u8>) -> Result<Option<Seq<TlvView>>, DecodeError> {
    if s.len() == 0 {
        Ok(None)
    } else {
        match spec_parse_tlvs(s) {
            Ok(tlvs) => Ok(Some(tlvs)),
            Err(e) => Err(e),
        }
    }
}

/// A decoded TLV took at least the four bytes of its type code and its
/// declared length, and nothing that the input did not hold.
pub proof fn lemma_tlv_consumes(s: Seq<u8>)
    ensures
        spec_parse_tlv(s) matches Ok((rest, _)) ==> rest.len() + 4 <= s.len(),
{
}

/// A TLV whose type code has no decoder of its own, held in full by `s`,
/// decodes to `Unknown` with that very code, the declared length, and the
/// value bytes exactly as they stand in `s`.
pub proof fn lemma_unknown_tlv_is_preserved(s: Seq<u8>)
    requires
        s.len() >= 4,
        be16(s, 0) != 16 && be16(s, 0) != 17 && be16(s, 0) != 18 && be16(s, 0) != 26,
        s.len() >= 4 + be16(s, 2),
    ensures
        spec_parse_tlv(s) matches Ok((_, TlvView::Unknown(tlv))) && tlv.tlv_type == be16(s, 0)
            && tlv.tlv_len == be16(s, 2) && tlv.tlv_data == s.subrange(4, 4 + be16(s, 2)),
{
    let body = s.skip(2);
    assert(be16(body, 0) == be16(s, 2));
    assert(body.subrange(2, 2 + be16(body, 0)) == s.subrange(4, 4 + be16(s, 2)));
}

/// Bytes after a TLV do not change what the TLV decodes to: where `tlv`
/// decodes to a TLV, `tlv + tail` decodes to the same TLV.  Where the TLV
/// left nothing of `tlv`, what it leaves of `tlv + tail` is at most `tail`:
/// all of it, or what is left of it once it has served as padding.
pub proof fn lemma_tlv_ignores_tail(tlv: Seq<u8>, tail: Seq<u8>)
    requires
        spec_parse_tlv(tlv) is Ok,
    ensures
        spec_parse_tlv(tlv + tail) matches Ok((rest, value)) && value == spec_parse_tlv(
            tlv,
        )->Ok_0.1 && (spec_parse_tlv(tlv)->Ok_0.0.len() == 0 ==> rest.len() <= tail.len()),
{
    let s = tlv + tail;
    let declared = be16(tlv, 2);
    assert(s.len() == tlv.len() + tail.len());
    assert(forall|i: int| 0 <= i < tlv.len() ==> s[i] == tlv[i]);
    assert(be16(s, 0) == be16(tlv, 0));
    assert(s.skip(2).len() == tlv.skip(2).len() + tail.len());
    assert(be16(s.skip(2), 0) == declared);
    assert(be16(tlv.skip(2), 0) == declared);
    if be16(tlv, 0) == 17 || !(be16(tlv, 0) == 16 || be16(tlv, 0) == 18 || be16(tlv, 0) == 26) {
        assert(s.skip(2).subrange(2, 2 + declared) =~= tlv.skip(2).subrange(2, 2 + declared));
    }
}

/// A window that holds one TLV in full, followed by one to three more
/// bytes, decodes to the list of that one TLV and does not fail: the bytes
/// that are left cannot hold the type code and the declared length of
/// another TLV, so the list ends there.
pub proof fn lemma_short_tail_ends_list(tlv: Seq<u8>, tail: Seq<u8>)
    requires
        spec_parse_tlv(tlv) matches Ok((rest, _)) && rest.len() == 0,
        1 <= tail.len() <= 3,
    ensures
        spec_parse_tlvs(tlv + tail) == Ok::<Seq<TlvView>, DecodeError>(
            seq![spec_parse_tlv(tlv)->Ok_0.1],
        ),
{
    let s = tlv + tail;
    let value = spec_parse_tlv(tlv)->Ok_0.1;
    lemma_tlv_ignores_tail(tlv, tail);
    let rest = spec_parse_tlv(s)->Ok_0.0;
    lemma_tlv_consumes(s);
    lemma_tlv_consumes(rest);
    if rest.len() > 0 {
        assert(spec_parse_tlv(rest) == Err::<(Seq<u8>, TlvView), DecodeError>(
            DecodeError::Incomplete,
        ));
        assert(spec_parse_tlvs(rest) == Ok::<Seq<TlvView>, DecodeError>(Seq::empty()));
    }
    assert(seq![value] + Seq::<TlvView>::empty() =~= seq![value]);
}

/// Namespace of the TLV decoder.
pub struct Parser;

impl Parser {
    /// Consumes the padding that follows `len` bytes of content, as
    /// `Utils::consume_padding` does: a padding cut short by the end of the
    /// input is no error, and nothing is consumed then.  Returns the input
    /// that is left, and the padding that was consumed.
    pub fn handle_padding<'a>(len: usize, input: &'a [u8]) -> (r: Decoded<'a, &'a [u8]>)
        ensures
            yields_view(r, spec_consume_padding(len as nat, input@)),
            r matches Ok((rest, padding)) && rest@ == spec_handle_padding(len as nat, input@)
                && padding@ + rest@ == input@,
    {
        proof {
            lemma_padding_resolver_never_fails(len as nat, input@);
        }
        Utils::consume_padding(len, input)
    }

    /// Decodes one TLV: the type code, the body, and the padding after it.
    pub fn parse_tlv<'a>(input: &'a [u8]) -> (r: Decoded<'a, Tlv>)
        ensures
            yields_view(r, spec_parse_tlv(input@)),
            r matches Ok((rest, _)) ==> rest@.len() + 4 <= input@.len(),
    {
        let (remaining, tlv_type) = be_u16(input)?;
        match Tlv::from(tlv_type) {
            Tlv::StatefulPCECapability(_) => {
                let (remaining, tlv) = StatefulPCECapabilityTLV::parse_tlv(remaining)?;
                let (remaining, _padding) = Self::handle_padding(tlv.tlv_len as usize, remaining)?;
                Ok((remaining, Tlv::StatefulPCECapability(tlv)))
            },
            Tlv::SrPCECapability(_) => {
                let (remaining, tlv) = SrPCECapabilityTLV::parse_tlv(remaining)?;
                let (remaining, _padding) = Self::handle_padding(tlv.tlv_len as usize, remaining)?;
                Ok((remaining, Tlv::SrPCECapability(tlv)))
            },
            Tlv::SymbolicPathName(_) => {
                let (remaining, tlv) = SymbolicPathNameTLV::parse_tlv(remaining)?;
                let (remaining, _padding) = Self::handle_padding(tlv.tlv_len as usize, remaining)?;
                Ok((remaining, Tlv::SymbolicPathName(tlv)))
            },
            Tlv::Ipv4LSPIndetifiers(_) => {
                let (remaining, tlv) = Ipv4LSPIndetifiersTLV::parse_tlv(remaining)?;
                let (remaining, _padding) = Self::handle_padding(tlv.tlv_len as usize, remaining)?;
                Ok((remaining, Tlv::Ipv4LSPIndetifiers(tlv)))
            },
            Tlv::Unknown(_) => {
                let (remaining, mut tlv) = UnknownTLV::parse_tlv(remaining)?;
                tlv.tlv_type = tlv_type;
                let (remaining, _padding) = Self::handle_padding(tlv.tlv_len as usize, remaining)?;
                Ok((remaining, Tlv::Unknown(tlv)))
            },
        }
    }

    /// Decodes the TLV list that ends an object body: absent where the
    /// fixed fields used the body up, else the TLVs of what is left of it.
    pub fn parse_optional_tlvs(input: &[u8]) -> (r: Result<Option<Vec<Tlv>>, DecodeError>)
        ensures
            match (r, spec_parse_optional_tlvs(input@)) {
                (Ok(tlvs), Ok(spec_tlvs)) => optional_tlv_views(tlvs) == spec_tlvs,
                (Err(e), Err(spec_e)) => e == spec_e,
                _ => false,
            },
            !(r matches Err(DecodeError::Incomplete)),
    {
        if input.len() > 0 {
            let (_rest, tlvs) = Self::parse_tlvs(input)?;
            Ok(Some(tlvs))
        } else {
            Ok(None)
        }
    }

    /// Decodes the TLVs of a window, in wire order.  The window is consumed
    /// whole: what is returned as left is empty.  An incomplete TLV ends
    /// the list and keeps the TLVs before it; a malformed TLV is an error.
    pub fn parse_tlvs<'a>(input: &'a [u8]) -> (r: Decoded<'a, Vec<Tlv>>)
        ensures
            match (r, spec_parse_tlvs(input@)) {
                (Ok((rest, tlvs)), Ok(spec_tlvs)) => rest@.len() == 0 && tlv_views(tlvs@)
                    == spec_tlvs,
                (Err(e), Err(spec_e)) => e == spec_e,
                _ => false,
            },
            !(r matches Err(DecodeError::Incomplete)),
    {
        let mut left = input;
        let mut tlvs: Vec<Tlv> = Vec::new();
        assert(tlv_views(tlvs@) =~= Seq::empty());
        assert(Seq::<TlvView>::empty() + spec_parse_tlvs(input@)->Ok_0 =~= spec_parse_tlvs(
            input@,
        )->Ok_0);
        while left.len() > 0
            invariant
                match spec_parse_tlvs(left@) {
                    Ok(more) => spec_parse_tlvs(input@) == Ok::<Seq<TlvView>, DecodeError>(
                        tlv_views(tlvs@) + more,
                    ),
                    Err(e) => spec_parse_tlvs(input@) == Err::<Seq<TlvView>, DecodeError>(e),
                },
            ensures
                spec_parse_tlvs(left@) == Ok::<Seq<TlvView>, DecodeError>(Seq::empty()),
            decreases left@.len(),
        {
            match Self::parse_tlv(left) {
                Ok((remaining, tlv)) => {
                    proof {
                        let ghost before = tlv_views(tlvs@);
                        let ghost after = tlv_views(tlvs@.push(tlv));
                        assert(after =~= before + seq![tlv@]);
                        if let Ok(more) = spec_parse_tlvs(remaining@) {
                            assert(after + more =~= before + (seq![tlv@] + more));
                        }
                    }
                    tlvs.push(tlv);
                    left = remaining;
                },
                Err(DecodeError::Incomplete) => {
                    break ;
                },
                Err(e) => {
                    return Err(e);
                },
            }
        }
        assert(tlv_views(tlvs@) + Seq::<TlvView>::empty() =~= tlv_views(tlvs@));
        let (rest, _) = take(left, left.len())?;
        Ok((rest, tlvs))
    }
}

} // verus!
