//! The two ways a decoder can fail.

use vstd::prelude::*;

verus! {

/// Why a decoder returned no value.
///
/// `Incomplete` is recoverable: the input ended before a read of fixed or
/// declared width was satisfied, and the same decoder may succeed on a longer
/// input.  `Malformed` is not: the bytes that are present violate the format.
#[derive(Debug, Clone, Copy, PartialEq, Eq, Structural)]
pub enum DecodeError {
    Incomplete,
    Malformed,
}

/// The result of a decoder on an input slice: the unconsumed suffix and the
/// decoded value, or the reason there is none.
pub type Decoded<'a, T> = Result<(&'a [u8], T), DecodeError>;

/// The result of a specification-level decoder on a byte sequence.
pub type SpecDecoded<T> = Result<(Seq<u8>, T), DecodeError>;

/// `r` is the outcome `expected`, the remaining input taken by its view.
pub open spec fn yields<T>(r: Decoded<T>, expected: SpecDecoded<T>) -> bool {
    match (r, expected) {
        (Ok((rest, value)), Ok((spec_rest, spec_value))) => rest@ == spec_rest && value
            == spec_value,
        (Err(e), Err(spec_e)) => e == spec_e,
        _ => false,
    }
}

/// `r` is the outcome `expected`, the remaining input and the decoded value
/// each taken by its view.
pub open spec fn yields_view<T: View>(r: Decoded<T>, expected: SpecDecoded<T::V>) -> bool {
    match (r, expected) {
        (Ok((rest, value)), Ok((spec_rest, spec_value))) => rest@ == spec_rest && value@
            == spec_value,
        (Err(e), Err(spec_e)) => e == spec_e,
        _ => false,
    }
}

} // verus!
