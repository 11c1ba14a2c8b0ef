//! PCEP messages: the common header and the message kinds built on it.

use vstd::prelude::*;
use crate::error::Decoded;
use crate::error::SpecDecoded;
use crate::error::yields_view;
use crate::messages::header::CommonHeader;
use crate::messages::keepalive::KeepAlive;
use crate::messages::open::Open;
use crate::messages::open::OpenView;
use crate::messages::pcinitiate::PCInitiate;
use crate::messages::pcinitiate::PCInitiateView;
use crate::messages::pcupdate::PcepUpdate;
use crate::messages::pcupdate::PcepUpdateView;
use crate::messages::types::MessageType;
use crate::objects::open::OpenObject;

pub mod header;
pub mod keepalive;
pub mod open;
pub mod pcinitiate;
pub mod pcupdate;
pub mod types;

verus! {

/// A decoded message.  A message of a kind that has no decoder here, known
/// or not, is kept as `Unrecognized` with its header, whose message type
/// tells the kind.
#[derive(Debug, PartialEq, Eq)]
pub enum Message {
    Open(Open),
    Keepalive(KeepAlive),
    Update(PcepUpdate),
    Initiate(PCInitiate),
    Unrecognized(CommonHeader),
}

/// The value of a `Message`.
pub enum MessageView {
    Open(OpenView),
    Keepalive(KeepAlive),
    Update(PcepUpdateView),
    Initiate(PCInitiateView),
    Unrecognized(CommonHeader),
}

impl View for Message {
    type V = MessageView;

    open spec fn view(&self) -> MessageView {
        match *self {
            Message::Open(message) => MessageView::Open(message@),
            Message::Keepalive(message) => MessageView::Keepalive(message),
            Message::Update(message) => MessageView::Update(message@),
            Message::Initiate(message) => MessageView::Initiate(message@),
            Message::Unrecognized(header) => MessageView::Unrecognized(header),
        }
    }
}

/// The message at the front of `s`: the common header, then the body that
/// the message type of the header asks for.  An Open message holds one
/// Open object; a Keepalive message holds nothing, and whatever follows its
/// header is left; an Update and an Initiate message hold their request
/// lists.  Any other message is unrecognized: its header is all that is
/// decoded.
pub open spec fn spec_parse_message(s: Seq<u8>) -> SpecDecoded<MessageView> {
    match CommonHeader::spec_parse_common_header(s) {
        Err(e) => Err(e),
        Ok((body, common_header)) => match common_header.message_type {
            MessageType::Open => match OpenObject::spec_parse_open_object(body) {
                Err(e) => Err(e),
                Ok((rest, open_object)) => Ok(
                    (rest, MessageView::Open(OpenView { common_header, open_object })),
                ),
            },
            MessageType::Keepalive => Ok(
                (body, MessageView::Keepalive(KeepAlive { common_header })),
            ),
            MessageType::PCUpd => {
                let (rest, message) = PcepUpdate::spec_parse_update_message(body);
                Ok((rest, MessageView::Update(PcepUpdateView { common_header, ..message })))
            },
            MessageType::PCInitiate => {
                let (rest, message) = PCInitiate::spec_parse_pcinitiate_message(body);
                Ok((rest, MessageView::Initiate(PCInitiateView { common_header, ..message })))
            },
            _ => Ok((body, MessageView::Unrecognized(common_header))),
        },
    }
}

/// Decodes one message: the common header, then the body by the message
/// type.  A message type without a decoder is no error.
pub fn parse_message<'a>(input: &'a [u8]) -> (r: Decoded<'a, Message>)
    ensures
        yields_view(r, spec_parse_message(input@)),
{
    let (remaining, common_header) = CommonHeader::parse_common_header(input)?;
    match common_header.message_type {
        MessageType::Open => {
            let (remaining, open_object) = OpenObject::parse_open_object(remaining)?;
            Ok((remaining, Message::Open(Open::new(common_header, open_object))))
        },
        MessageType::Keepalive => Ok(
            (remaining, Message::Keepalive(KeepAlive::from(common_header))),
        ),
        MessageType::PCUpd => {
            let (remaining, mut update_message) = PcepUpdate::parse_update_message(remaining)?;
            update_message.common_header = common_header;
            Ok((remaining, Message::Update(update_message)))
        },
        MessageType::PCInitiate => {
            let (remaining, mut initiate_message) = PCInitiate::parse_pcinitiate_message(
                remaining,
            )?;
            initiate_message.common_header = common_header;
            Ok((remaining, Message::Initiate(initiate_message)))
        },
        _ => Ok((remaining, Message::Unrecognized(common_header))),
    }
}

} // verus!
