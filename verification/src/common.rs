//! Pieces shared by the decoders: alignment padding, the protocol version,
//! the operational status of an LSP, and the plain values that stand for
//! addresses and floating-point fields.

use vstd::prelude::*;
use vstd::std_specs::convert::FromSpecImpl;
use crate::error::DecodeError;
use crate::error::Decoded;
use crate::error::SpecDecoded;
use crate::error::yields;
use crate::error::yields_view;
use crate::objects::bandwidth::BandwidthObject;
use crate::objects::lspa::LspaObject;
use crate::objects::lspa::LspaObjectView;
use crate::objects::metric::MetricObject;
use crate::reader::spec_take;
use crate::reader::take;

verus! {

/// The number of bytes that round a content length of `len` up to the next
/// multiple of four.
pub open spec fn padding_len(len: nat) -> nat {
    ((4 - len % 4) % 4) as nat
}

/// The padding that follows `len` bytes of content at the front of `s`: the
/// rest, then the padding.  Where `s` ends before the padding does, no
/// padding is available: nothing is consumed, and this is no error.
pub open spec fn spec_consume_padding(len: nat, s: Seq<u8>) -> SpecDecoded<Seq<u8>> {
    if s.len() < padding_len(len) {
        Ok((s, Seq::empty()))
    } else {
        spec_take(s, padding_len(len))
    }
}

/// Padding added to a content length reaches the next multiple of four and
/// is never more than three bytes.
pub proof fn lemma_padding_aligns(len: nat)
    ensures
        (len + padding_len(len)) % 4 == 0,
        0 <= padding_len(len) <= 3,
{
}

/// Namespace of the padding resolver.
pub struct Utils;

impl Utils {
    /// Consumes the alignment padding that follows `len` bytes of content:
    /// returns the input without the padding, and the padding.  This never
    /// fails: an input that ends inside the padding is returned as it is,
    /// with an empty padding, since the last element of a buffer often
    /// comes without its padding.
    pub fn consume_padding<'a>(len: usize, input: &'a [u8]) -> (r: Decoded<'a, &'a [u8]>)
        ensures
            yields_view(r, spec_consume_padding(len as nat, input@)),
            r matches Ok((rest, padding)) && rest@.len() + padding@.len() == input@.len() && (
            input@.len() >= padding_len(len as nat) ==> padding@.len() == padding_len(
                len as nat,
            )),
    {
        let needed: usize = match len % 4 {
            0 => 0,
            1 => 3,
            2 => 2,
            _ => 1,
        };
        match take(input, needed) {
            Ok((rest, padding)) => Ok((rest, padding)),
            Err(_) => {
                let r = take(input, 0);
                assert(input@.skip(0) == input@);
                assert(input@.take(0) == Seq::<u8>::empty());
                r
            },
        }
    }
}

/// The protocol version carried by the common header and the Open object.
/// Version 1 is the only one defined.
#[non_exhaustive]
#[derive(Debug, PartialEq, Eq, Clone, Copy, Structural)]
pub enum Version {
    One,
}

impl Version {
    /// The version that the 3-bit field `value` names, if it is defined.
    pub open spec fn of_code(value: u8) -> Option<Version> {
        if value == 1 {
            Some(Version::One)
        } else {
            None
        }
    }

    /// The version that `value` names; `Malformed` for a value that names
    /// none.
    pub fn try_from(value: u8) -> (r: Result<Version, DecodeError>)
        ensures
            r == match Version::of_code(value) {
                Some(version) => Ok::<Version, DecodeError>(version),
                None => Err(DecodeError::Malformed),
            },
    {
        match value {
            1 => Ok(Version::One),
            _ => Err(DecodeError::Malformed),
        }
    }
}

impl Default for Version {
    fn default() -> (version: Version)
        ensures
            version == Version::One,
    {
        Version::One
    }
}

/// Operational status of an LSP: the 3-bit field of the LSP object.
#[non_exhaustive]
#[derive(Clone, Copy, Debug, PartialEq, Eq, Structural)]
pub enum OperationalStatus {
    Down,
    Up,
    Active,
    GoingDown,
    GoingUp,
    Reserved,
}

impl OperationalStatus {
    /// The status that the 3-bit field `value` names.  The values from 5
    /// on are reserved.
    pub open spec fn of_code(value: u8) -> OperationalStatus {
        match value {
            0 => OperationalStatus::Down,
            1 => OperationalStatus::Up,
            2 => OperationalStatus::Active,
            3 => OperationalStatus::GoingDown,
            4 => OperationalStatus::GoingUp,
            _ => OperationalStatus::Reserved,
        }
    }
}

impl FromSpecImpl<u8> for OperationalStatus {
    open spec fn obeys_from_spec() -> bool {
        true
    }

    open spec fn from_spec(value: u8) -> OperationalStatus {
        OperationalStatus::of_code(value)
    }
}

impl From<u8> for OperationalStatus {
    /// The status that `value` names.
    fn from(value: u8) -> (status: OperationalStatus) {
        match value {
            0 => OperationalStatus::Down,
            1 => OperationalStatus::Up,
            2 => OperationalStatus::Active,
            3 => OperationalStatus::GoingDown,
            4 => OperationalStatus::GoingUp,
            _ => OperationalStatus::Reserved,
        }
    }
}

/// An IPv4 address `a.b.c.d`, as its four octets in wire order.
#[derive(Debug, PartialEq, Eq, Clone, Copy, Structural)]
pub struct Ipv4Addr {
    pub a: u8,
    pub b: u8,
    pub c: u8,
    pub d: u8,
}

impl Ipv4Addr {
    /// The address `a.b.c.d`.
    pub fn new(a: u8, b: u8, c: u8, d: u8) -> (addr: Ipv4Addr)
        ensures
            addr == (Ipv4Addr { a, b, c, d }),
    {
        Ipv4Addr { a, b, c, d }
    }

    /// The address held by the four bytes of `s` that start at `at`.
    pub open spec fn at(s: Seq<u8>, at: int) -> Ipv4Addr {
        Ipv4Addr { a: s[at], b: s[at + 1], c: s[at + 2], d: s[at + 3] }
    }

    /// The loopback address 127.0.0.1, the placeholder of not yet decoded
    /// address fields.
    pub open spec fn spec_localhost() -> Ipv4Addr {
        Ipv4Addr { a: 127, b: 0, c: 0, d: 1 }
    }

    /// The loopback address 127.0.0.1.
    pub fn localhost() -> (addr: Ipv4Addr)
        ensures
            addr == Ipv4Addr::spec_localhost(),
    {
        Ipv4Addr::new(127, 0, 0, 1)
    }

    /// The address spelled by a span of exactly four bytes.
    fn from_span(span: &[u8]) -> (addr: Ipv4Addr)
        requires
            span@.len() == 4,
        ensures
            addr == Ipv4Addr::at(span@, 0),
    {
        Ipv4Addr::new(span[0], span[1], span[2], span[3])
    }

    /// An address from the front of `s`.
    pub open spec fn spec_parse(s: Seq<u8>) -> Result<(Seq<u8>, Ipv4Addr), DecodeError> {
        if s.len() < 4 {
            Err(DecodeError::Incomplete)
        } else {
            Ok((s.skip(4), Ipv4Addr::at(s, 0)))
        }
    }

    /// Reads an address: four bytes from the front of `input`.
    pub fn parse<'a>(input: &'a [u8]) -> (r: Decoded<'a, Ipv4Addr>)
        ensures
            yields(r, Ipv4Addr::spec_parse(input@)),
    {
        let (rest, span) = take(input, 4)?;
        Ok((rest, Ipv4Addr::from_span(span)))
    }
}

/// A single-precision floating-point field, held as the 32 bits that were
/// on the wire (IEEE 754, most significant byte first).
#[derive(Debug, PartialEq, Eq, Clone, Copy, Structural)]
pub struct Float32 {
    pub bits: u32,
}

/// The outcome of an element that may be absent: where the decoder
/// succeeded, the element and what the decoder left; where it failed, no
/// element and the input as it was.
pub open spec fn spec_optional<T>(s: Seq<u8>, r: SpecDecoded<T>) -> (Seq<u8>, Option<T>) {
    match r {
        Ok((rest, value)) => (rest, Some(value)),
        Err(_) => (s, None),
    }
}

/// Turns the result `r` of a decoder run on `input` into an optional
/// element: a failure of either kind leaves the element absent and moves
/// the cursor back to `input`.
pub fn optional<'a, T>(input: &'a [u8], r: Decoded<'a, T>) -> (out: (&'a [u8], Option<T>))
    ensures
        match r {
            Ok((rest, value)) => out.0@ == rest@ && out.1 == Some(value),
            Err(_) => out.0@ == input@ && out.1 is None,
        },
{
    match r {
        Ok((rest, value)) => (rest, Some(value)),
        Err(_) => (input, None),
    }
}

/// The Metric objects at the front of `s`, up to the first position where
/// none decodes: the bytes after them, then the objects in wire order.
pub open spec fn spec_parse_metric_list(s: Seq<u8>) -> (Seq<u8>, Seq<MetricObject>)
    decreases s.len(),
{
    if s.len() == 0 {
        (s, Seq::empty())
    } else {
        match MetricObject::spec_parse_metric_object(s) {
            Ok((rest, metric)) => {
                if rest.len() < s.len() {
                    let (left, metrics) = spec_parse_metric_list(rest);
                    (left, seq![metric] + metrics)
                } else {
                    (rest, seq![metric])
                }
            },
            Err(_) => (s, Seq::empty()),
        }
    }
}

/// The attributes that may follow a path: at most one LSPA object, at most
/// one Bandwidth object, and any number of Metric objects, in this order.
#[derive(Debug, PartialEq, Eq)]
pub struct IntendedAttrList {
    pub lspa_object: Option<LspaObject>,
    pub bandwidth_object: Option<BandwidthObject>,
    pub metric_list: Option<Vec<MetricObject>>,
}

/// The value of an `IntendedAttrList`.
pub struct IntendedAttrListView {
    pub lspa_object: Option<LspaObjectView>,
    pub bandwidth_object: Option<BandwidthObject>,
    pub metric_list: Option<Seq<MetricObject>>,
}

impl View for IntendedAttrList {
    type V = IntendedAttrListView;

    open spec fn view(&self) -> IntendedAttrListView {
        IntendedAttrListView {
            lspa_object: match self.lspa_object {
                Some(object) => Some(object@),
                None => None,
            },
            bandwidth_object: self.bandwidth_object,
            metric_list: match self.metric_list {
                Some(list) => Some(list@),
                None => None,
            },
        }
    }
}

impl IntendedAttrList {
    /// The attribute list at the front of `s`.  Each attribute is tried in
    /// turn where the one before it stopped; one that does not decode is
    /// absent and consumes nothing.  The Metric objects end at the first
    /// one that does not decode, and a list of none is absent.
    pub open spec fn spec_parse_intended_attr_list(s: Seq<u8>) -> (Seq<u8>, IntendedAttrListView) {
        let (after_lspa, lspa_object) = spec_optional(s, LspaObject::spec_parse_lspa_object(s));
        let (after_bandwidth, bandwidth_object) = spec_optional(
            after_lspa,
            BandwidthObject::spec_parse_bandwidth_object(after_lspa),
        );
        let (rest, metrics) = spec_parse_metric_list(after_bandwidth);
        (
            rest,
            IntendedAttrListView {
                lspa_object,
                bandwidth_object,
                metric_list: if metrics.len() == 0 {
                    None
                } else {
                    Some(metrics)
                },
            },
        )
    }

    /// Decodes an attribute list and returns it with the bytes after it.
    /// This never fails: an input that starts with no attribute gives the
    /// list with every attribute absent, and nothing is consumed.
    pub fn parse_intended_attr_list<'a>(input: &'a [u8]) -> (r: Decoded<'a, IntendedAttrList>)
        ensures
            r matches Ok((rest, list)) && (rest@, list@)
                == IntendedAttrList::spec_parse_intended_attr_list(input@) && rest@.len()
                <= input@.len(),
    {
        let (after_lspa, lspa_object) = optional(input, LspaObject::parse_lspa_object(input));
        let (after_bandwidth, bandwidth_object) = optional(
            after_lspa,
            BandwidthObject::parse_bandwidth_object(after_lspa),
        );
        let ghost start = after_bandwidth@;
        let mut left = after_bandwidth;
        let mut metric_objects: Vec<MetricObject> = Vec::new();
        assert(Seq::<MetricObject>::empty() + spec_parse_metric_list(start).1
            =~= spec_parse_metric_list(start).1);
        while left.len() > 0
            invariant
                spec_parse_metric_list(start) == (
                    spec_parse_metric_list(left@).0,
                    metric_objects@ + spec_parse_metric_list(left@).1,
                ),
                left@.len() <= input@.len(),
            ensures
                spec_parse_metric_list(left@) == (left@, Seq::<MetricObject>::empty()),
            decreases left@.len(),
        {
            match MetricObject::parse_metric_object(left) {
                Ok((remaining, metric_object)) => {
                    proof {
                        let more = spec_parse_metric_list(remaining@).1;
                        assert(metric_objects@.push(metric_object) + more =~= metric_objects@ + (
                        seq![metric_object] + more));
                    }
                    left = remaining;
                    metric_objects.push(metric_object);
                },
                Err(_e) => {
                    break ;
                },
            }
        }
        assert(metric_objects@ + Seq::<MetricObject>::empty() =~= metric_objects@);
        let attr_lst = IntendedAttrList {
            lspa_object,
            bandwidth_object,
            metric_list: if metric_objects.len() == 0 {
                None
            } else {
                Some(metric_objects)
            },
        };
        Ok((left, attr_lst))
    }
}

} // verus!
