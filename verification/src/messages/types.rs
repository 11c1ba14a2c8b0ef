//! Message-type codes of the common message header.

use vstd::prelude::*;
use vstd::std_specs::convert::TryFromSpecImpl;

verus! {

/// The kind of a PCEP message, as named by the second byte of its header.
#[non_exhaustive]
#[derive(Debug, PartialEq, Eq, Clone, Copy, Structural)]
pub enum MessageType {
    Open,
    Keepalive,
    PCReq,
    PCRep,
    PCNtf,
    PCErr,
    PCClose,
    PCRpt,
    PCUpd,
    PCInitiate,
    UnKnown(u8),
}

/// A message-type code that names no known kind of message.
#[derive(Debug, PartialEq, Eq, Clone, Copy, Structural)]
pub enum MessageTypeError {
    UnknownMessageTypeError(u8),
}

impl MessageType {
    /// The kind that `code` names; a code that names none is kept in
    /// `UnKnown`.
    pub open spec fn of_code(code: u8) -> MessageType {
        match code {
            1 => MessageType::Open,
            2 => MessageType::Keepalive,
            3 => MessageType::PCReq,
            4 => MessageType::PCRep,
            5 => MessageType::PCNtf,
            6 => MessageType::PCErr,
            7 => MessageType::PCClose,
            10 => MessageType::PCRpt,
            11 => MessageType::PCUpd,
            12 => MessageType::PCInitiate,
            _ => MessageType::UnKnown(code),
        }
    }

    /// Whether `code` names a known kind of message.
    pub open spec fn is_known_code(code: u8) -> bool {
        1 <= code <= 7 || 10 <= code <= 12
    }

    /// The kind that `code` names, with `UnKnown` as the fallback: this
    /// conversion never fails.
    pub fn from_code(code: u8) -> (kind: MessageType)
        ensures
            kind == MessageType::of_code(code),
    {
        match MessageType::try_from(code) {
            Ok(kind) => kind,
            Err(MessageTypeError::UnknownMessageTypeError(raw)) => MessageType::UnKnown(raw),
        }
    }
}

impl Default for MessageType {
    fn default() -> (kind: MessageType)
        ensures
            kind == MessageType::UnKnown(0),
    {
        MessageType::UnKnown(0)
    }
}

impl TryFromSpecImpl<u8> for MessageType {
    open spec fn obeys_try_from_spec() -> bool {
        true
    }

    open spec fn try_from_spec(value: u8) -> Result<MessageType, MessageTypeError> {
        if MessageType::is_known_code(value) {
            Ok(MessageType::of_code(value))
        } else {
            Err(MessageTypeError::UnknownMessageTypeError(value))
        }
    }
}

impl TryFrom<u8> for MessageType {
    type Error = MessageTypeError;

    fn try_from(value: u8) -> (r: Result<MessageType, MessageTypeError>) {
        match value {
            1 => Ok(MessageType::Open),
            2 => Ok(MessageType::Keepalive),
            3 => Ok(MessageType::PCReq),
            4 => Ok(MessageType::PCRep),
            5 => Ok(MessageType::PCNtf),
            6 => Ok(MessageType::PCErr),
            7 => Ok(MessageType::PCClose),
            10 => Ok(MessageType::PCRpt),
            11 => Ok(MessageType::PCUpd),
            12 => Ok(MessageType::PCInitiate),
            _ => Err(MessageTypeError::UnknownMessageTypeError(value)),
        }
    }
}

} // verus!
