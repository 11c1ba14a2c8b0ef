//! The sub-object decoder: one sub-object, and the list that makes up the
//! body of an ERO.

use vstd::prelude::*;
use crate::error::DecodeError;
use crate::error::Decoded;
use crate::error::SpecDecoded;
use crate::error::yields;
use crate::reader::spec_take;
use crate::reader::take;
use crate::subobjects::header::SubObject;
use crate::subobjects::prefix::Ipv4PrefixSubobject;
use crate::subobjects::sr::SrSubobject;
use crate::subobjects::types::SubObjectTypes;

verus! {

/// The value of a sub-object of the kind `kind`, decoded from the value
/// window `body`.  The window was carved by the declared length, so the
/// value must fill it exactly: a window that is too short or too long for
/// the value is malformed, as is a kind that has no decoder.
pub open spec fn spec_parse_value(kind: SubObjectTypes, body: Seq<u8>) -> Result<
    SubObjectTypes,
    DecodeError,
> {
    match kind {
        SubObjectTypes::Ipv4Prefix(_) => match Ipv4PrefixSubobject::spec_parse_ipv4_pref_subobject(
            body,
        ) {
            Ok((left, prefix)) => if left.len() == 0 {
                Ok(SubObjectTypes::Ipv4Prefix(prefix))
            } else {
                Err(DecodeError::Malformed)
            },
            Err(_) => Err(DecodeError::Malformed),
        },
        SubObjectTypes::Sr(_) => match SrSubobject::spec_parse_sr_subobject(body) {
            Ok((left, segment)) => if left.len() == 0 {
                Ok(SubObjectTypes::Sr(segment))
            } else {
                Err(DecodeError::Malformed)
            },
            Err(_) => Err(DecodeError::Malformed),
        },
        _ => Err(DecodeError::Malformed),
    }
}

/// One sub-object at the front of `s`: the header, the value window of the
/// declared length less the two bytes of the header, and the value decoded
/// from that window.  A declared length under 2 is malformed; a window that
/// `s` does not hold in full is incomplete.
pub open spec fn spec_parse_subobject(s: Seq<u8>) -> SpecDecoded<SubObject> {
    match SubObject::spec_parse_common_subobject(s) {
        Err(e) => Err(e),
        Ok((after_header, header)) => {
            if header.subobject_len < 2 {
                Err(DecodeError::Malformed)
            } else {
                match spec_take(after_header, (header.subobject_len - 2) as nat) {
                    Err(e) => Err(e),
                    Ok((rest, body)) => match spec_parse_value(header.subobject_type, body) {
                        Err(e) => Err(e),
                        Ok(value) => Ok((rest, SubObject { subobject_type: value, ..header })),
                    },
                }
            }
        },
    }
}

/// The sub-objects of the window `s`, in wire order.  The list ends where
/// the window ends, or where one more sub-object would be incomplete; a
/// malformed sub-object makes the whole list malformed.
pub open spec fn spec_parse_subobjects(s: Seq<u8>) -> Result<Seq<SubObject>, DecodeError>
    decreases s.len(),
{
    if s.len() == 0 {
        Ok(Seq::empty())
    } else {
        match spec_parse_subobject(s) {
            Err(DecodeError::Incomplete) => Ok(Seq::empty()),
            Err(DecodeError::Malformed) => Err(DecodeError::Malformed),
            Ok((rest, subobject)) => {
                if rest.len() < s.len() {
                    match spec_parse_subobjects(rest) {
                        Ok(subobjects) => Ok(seq![subobject] + subobjects),
                        Err(e) => Err(e),
                    }
                } else {
                    Ok(seq![subobject])
                }
            },
        }
    }
}

/// The sub-object list of an ERO body: absent where the body is empty,
/// else the sub-objects of the body.
pub open spec fn spec_parse_optional_subobjects(s: Seq<u8>) -> Result<
    Option<Seq<SubObject>>,
    DecodeError,
> {
    if s.len() == 0 {
        Ok(None)
    } else {
        match spec_parse_subobjects(s) {
            Ok(subobjects) => Ok(Some(subobjects)),
            Err(e) => Err(e),
        }
    }
}

/// Namespace of the sub-object decoder.
pub struct Parser;

impl Parser {
    /// Decodes one sub-object and returns it with the bytes after it.
    pub fn parse_subobject<'a>(input: &'a [u8]) -> (r: Decoded<'a, SubObject>)
        ensures
            yields(r, spec_parse_subobject(input@)),
            r matches Ok((rest, subobject)) ==> rest@.len() + subobject.subobject_len
                == input@.len() && subobject.subobject_len >= 2,
    {
        let (remaining, mut subobject) = SubObject::parse_common_subobject(input)?;
        if subobject.subobject_len < 2 {
            return Err(DecodeError::Malformed);
        }
        let subobject_body_len = subobject.subobject_len - 2;
        let (remaining, subobject_body) = take(remaining, subobject_body_len as usize)?;
        let subobject_type = match subobject.subobject_type {
            SubObjectTypes::Ipv4Prefix(_) => {
                match Ipv4PrefixSubobject::parse_ipv4_pref_subobject(subobject_body) {
                    Ok((left, ipv4_pref_subobject)) => {
                        if left.len() > 0 {
                            return Err(DecodeError::Malformed);
                        }
                        SubObjectTypes::Ipv4Prefix(ipv4_pref_subobject)
                    },
                    Err(_) => {
                        return Err(DecodeError::Malformed);
                    },
                }
            },
            SubObjectTypes::Sr(_) => {
                match SrSubobject::parse_sr_subobject(subobject_body) {
                    Ok((left, sr_subobject)) => {
                        if left.len() > 0 {
                            return Err(DecodeError::Malformed);
                        }
                        SubObjectTypes::Sr(sr_subobject)
                    },
                    Err(_) => {
                        return Err(DecodeError::Malformed);
                    },
                }
            },
            _ => {
                return Err(DecodeError::Malformed);
            },
        };
        subobject.subobject_type = subobject_type;
        Ok((remaining, subobject))
    }

    /// Decodes the sub-objects of a window, in wire order.  The window is
    /// consumed whole: what is returned as left is empty.  An incomplete
    /// sub-object ends the list and keeps the sub-objects before it; a
    /// malformed sub-object is an error.
    pub fn parse_subobjects<'a>(input: &'a [u8]) -> (r: Decoded<'a, Vec<SubObject>>)
        ensures
            match (r, spec_parse_subobjects(input@)) {
                (Ok((rest, subobjects)), Ok(spec_subobjects)) => rest@.len() == 0 && subobjects@
                    == spec_subobjects,
                (Err(e), Err(spec_e)) => e == spec_e,
                _ => false,
            },
            !(r matches Err(DecodeError::Incomplete)),
    {
        let mut left = input;
        let mut subobjects: Vec<SubObject> = Vec::new();
        assert(Seq::<SubObject>::empty() + spec_parse_subobjects(input@)->Ok_0
            =~= spec_parse_subobjects(input@)->Ok_0);
        while left.len() > 0
            invariant
                match spec_parse_subobjects(left@) {
                    Ok(more) => spec_parse_subobjects(input@) == Ok::<Seq<SubObject>, DecodeError>(
                        subobjects@ + more,
                    ),
                    Err(e) => spec_parse_subobjects(input@) == Err::<Seq<SubObject>, DecodeError>(
                        e,
                    ),
                },
            ensures
                spec_parse_subobjects(left@) == Ok::<Seq<SubObject>, DecodeError>(Seq::empty()),
            decreases left@.len(),
        {
            match Self::parse_subobject(left) {
                Ok((remaining, subobject)) => {
                    proof {
                        if let Ok(more) = spec_parse_subobjects(remaining@) {
                            assert(subobjects@.push(subobject) + more =~= subobjects@ + (
                            seq![subobject] + more));
                        }
                    }
                    subobjects.push(subobject);
                    left = remaining;
                },
                Err(DecodeError::Incomplete) => {
                    break ;
                },
                Err(e) => {
                    return Err(e);
                },
            }
        }
        assert(subobjects@ + Seq::<SubObject>::empty() =~= subobjects@);
        let (rest, _) = take(left, left.len())?;
        Ok((rest, subobjects))
    }

    /// Decodes the sub-object list of an ERO body: absent where the body
    /// is empty, else the sub-objects of the body.
    pub fn parse_optional_subobjects(input: &[u8]) -> (r: Result<
        Option<Vec<SubObject>>,
        DecodeError,
    >)
        ensures
            match (r, spec_parse_optional_subobjects(input@)) {
                (Ok(Some(subobjects)), Ok(Some(spec_subobjects))) => subobjects@
                    == spec_subobjects,
                (Ok(None), Ok(None)) => true,
                (Err(e), Err(spec_e)) => e == spec_e,
                _ => false,
            },
            !(r matches Err(DecodeError::Incomplete)),
    {
        if input.len() > 0 {
            let (_rest, subobjects) = Self::parse_subobjects(input)?;
            Ok(Some(subobjects))
        } else {
            Ok(None)
        }
    }
}

} // verus!
