//! The request to delete a message, as a plain value.
//!
//! Building the request is pure and lives here; issuing it over the
//! network is the caller's job. The service's limitations on deletion
//! (how old the message may be, which chats allow it) are enforced
//! remotely and are not modelled.

use vstd::prelude::*;

use crate::types::ChatId;

verus! {

/// A request to delete one message in one chat.
#[derive(Clone, Debug, PartialEq)]
pub struct DeleteMessage {
    /// The chat or channel holding the message.
    pub chat_id: ChatId,
    /// The identifier of the message to delete.
    pub message_id: i32,
}

impl DeleteMessage {
    /// Builds the request from its two required fields.
    pub fn new(chat_id: ChatId, message_id: i32) -> (r: Self)
        ensures
            r.chat_id == chat_id,
            r.message_id == message_id,
    {
        Self { chat_id, message_id }
    }

    /// Replaces the target chat, leaving the message identifier as is.
    pub fn chat_id(self, val: ChatId) -> (r: Self)
        ensures
            r.chat_id == val,
            r.message_id == self.message_id,
    {
        Self { chat_id: val, ..self }
    }

    /// Replaces the target message, leaving the chat as is.
    pub fn message_id(self, val: i32) -> (r: Self)
        ensures
            r.chat_id == self.chat_id,
            r.message_id == val,
    {
        Self { message_id: val, ..self }
    }
}

} // verus!
