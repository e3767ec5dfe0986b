use vstd::prelude::*;

use crate::chat_data::{ChatData, DecodeError};
use crate::forward::PlatformCall;

verus! {

/// The status and body of an HTTP response.
pub struct HttpReply {
    pub status: u16,
    pub body: String,
}

pub open spec fn sent_text() -> Seq<char> {
    "Message sent!"@
}

pub open spec fn send_failure_prefix() -> Seq<char> {
    "Failed to send message to Telegram: "@
}

pub open spec fn decode_error_text(e: DecodeError) -> Seq<char> {
    match e {
        DecodeError::MissingChatId => "missing field `chatid`"@,
        DecodeError::MissingMessage => "missing field `message`"@,
        DecodeError::Unparsable => "malformed request"@,
    }
}

/// The call that sends a text-only request: its message, to its chat.
pub fn send_message(data: &ChatData<String>) -> (r: PlatformCall)
    ensures
        r matches PlatformCall::SendText { chat, text } && chat@ == data.chatid@ && text@ == data.message@,
{
    PlatformCall::SendText { chat: data.chatid.clone(), text: data.message.clone() }
}

/// The response to a text-only request, from the answer to its send.
pub fn message_response(result: Result<(), String>) -> (r: HttpReply)
    ensures
        result is Ok ==> r.status == 200 && r.body@ == sent_text(),
        result matches Err(e) ==> r.status == 500 && r.body@ == send_failure_prefix() + e@,
{
    match result {
        Ok(_) => HttpReply { status: 200, body: String::from_str("Message sent!") },
        Err(e) => HttpReply {
            status: 500,
            body: String::from_str("Failed to send message to Telegram: ").concat(e.as_str()),
        },
    }
}

impl DecodeError {
    /// The error as text.
    pub fn describe(&self) -> (r: String)
        ensures
            r@ == decode_error_text(*self),
    {
        match self {
            DecodeError::MissingChatId => String::from_str("missing field `chatid`"),
            DecodeError::MissingMessage => String::from_str("missing field `message`"),
            DecodeError::Unparsable => String::from_str("malformed request"),
        }
    }
}

/// The response to a request that could not be decoded.
pub fn decode_failure_response(e: DecodeError) -> (r: HttpReply)
    ensures
        r.status == 500,
        r.body@ == decode_error_text(e),
{
    HttpReply { status: 500, body: e.describe() }
}

} // verus!
