//! The common message header: the four bytes that start every message.

use vstd::prelude::*;
use vstd::arithmetic::power2::lemma2_to64;
use crate::common::Version;
use crate::error::DecodeError;
use crate::error::Decoded;
use crate::error::SpecDecoded;
use crate::error::yields;
use crate::messages::types::MessageType;
use crate::reader::be16;
use crate::reader::be_u16;
use crate::reader::be_u8;
use crate::reader::bit_field;
use crate::reader::prefix_value;
use crate::reader::take;
use crate::reader::take_bits;

verus! {

/// The common message header.
///
/// ```text
/// | version(3b) flags(5b) | msg-type(8b) | msg-length(16b) |
/// ```
///
/// `message_length` counts the whole message, these four bytes included.
#[derive(Debug, PartialEq, Eq, Clone, Copy, Structural)]
pub struct CommonHeader {
    pub version: Version,
    pub flags: u8,
    pub message_type: MessageType,
    pub message_length: u16,
}

impl Default for CommonHeader {
    fn default() -> (header: CommonHeader)
        ensures
            header == CommonHeader::spec_default(),
    {
        CommonHeader {
            version: Version::One,
            flags: 0,
            message_type: MessageType::UnKnown(0),
            message_length: 0,
        }
    }
}

impl CommonHeader {
    /// The header of a message whose header is not known yet: version 1, no
    /// flags, message type 0 and length 0.
    pub open spec fn spec_default() -> CommonHeader {
        CommonHeader {
            version: Version::One,
            flags: 0,
            message_type: MessageType::UnKnown(0),
            message_length: 0,
        }
    }

    /// The version and flags fields: the upper three and the lower five bits
    /// of the first byte of `s`.
    pub open spec fn spec_parse_version_flags(s: Seq<u8>) -> SpecDecoded<(u8, u8)> {
        if s.len() < 1 {
            Err(DecodeError::Incomplete)
        } else {
            Ok((s.skip(1), ((s[0] / 32) as u8, (s[0] % 32) as u8)))
        }
    }

    /// The header at the front of `s`.  A version field other than 1 is
    /// malformed; a message type that names no known kind is kept as
    /// `UnKnown`.
    pub open spec fn spec_parse_common_header(s: Seq<u8>) -> SpecDecoded<CommonHeader> {
        if s.len() < 4 {
            Err(DecodeError::Incomplete)
        } else {
            match Version::of_code((s[0] / 32) as u8) {
                None => Err(DecodeError::Malformed),
                Some(version) => Ok(
                    (
                        s.skip(4),
                        CommonHeader {
                            version,
                            flags: (s[0] % 32) as u8,
                            message_type: MessageType::of_code(s[1]),
                            message_length: be16(s, 2) as u16,
                        },
                    ),
                ),
            }
        }
    }

    /// Whether a message body of `consumed` bytes fits in the message
    /// length that this header declares, which counts the four bytes of
    /// the header too.
    pub open spec fn spec_body_fits(self, consumed: nat) -> bool {
        4 <= self.message_length && consumed <= self.message_length - 4
    }

    /// Tells whether a body of `consumed` bytes fits in the declared
    /// message length.  The decoders do not hold a message to its declared
    /// length; a caller that wants to does so with this test.
    pub fn body_fits(&self, consumed: usize) -> (fits: bool)
        ensures
            fits == self.spec_body_fits(consumed as nat),
    {
        self.message_length >= 4 && consumed <= (self.message_length - 4) as usize
    }

    /// Decodes the common message header and returns it with the bytes that
    /// follow it.
    pub fn parse_common_header<'a>(input: &'a [u8]) -> (r: Decoded<'a, CommonHeader>)
        ensures
            yields(r, CommonHeader::spec_parse_common_header(input@)),
    {
        let (rest, ver_flags) = Self::parse_version_flags(input)?;
        let (rest, message_type) = be_u8(rest)?;
        let (rest, message_length) = be_u16(rest)?;
        let version = Version::try_from(ver_flags.0)?;
        let header = CommonHeader {
            version,
            flags: ver_flags.1,
            message_type: MessageType::from_code(message_type),
            message_length,
        };
        assert(rest@ == input@.skip(4));
        Ok((rest, header))
    }

    /// Decodes the byte that packs the 3-bit version and the 5-bit flags.
    pub fn parse_version_flags<'a>(input: &'a [u8]) -> (r: Decoded<'a, (u8, u8)>)
        ensures
            yields(r, CommonHeader::spec_parse_version_flags(input@)),
    {
        let (rest, group) = take(input, 1)?;
        proof {
            lemma2_to64();
            reveal_with_fuel(prefix_value, 2);
            assert(prefix_value(group@, 1) == input@[0]);
            assert(prefix_value(group@, 1) / 1 == prefix_value(group@, 1));
            assert(bit_field(group@, 0, 3) == input@[0] / 32);
            assert(bit_field(group@, 3, 5) == input@[0] % 32);
        }
        let (cursor, version) = take_bits(group, 0, 3)?;
        let (_, flags) = take_bits(cursor.0, cursor.1, 5)?;
        Ok((rest, (version as u8, flags as u8)))
    }
}

} // verus!
