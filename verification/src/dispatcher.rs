//! Fan-out of projected events to per-kind sinks, and derivation of
//! the conversation key an event belongs to.
//!
//! The dispatcher owns one queue per registered event kind. Routing an
//! event only appends to the matching queue, so a slow consumer of one
//! kind never stalls ingestion of the others; each queue grows without
//! bound if its consumer never drains it, an accepted and documented
//! risk. Events whose kind has no registered sink are dropped, and the
//! caller is told so it can emit a diagnostic.

use vstd::prelude::*;

use crate::types::{CallbackQuery, Message, UpdateKind};

verus! {

/// The registry of sinks: one independently drained queue per
/// registered event kind — plain messages and callback queries.
pub struct Dispatcher {
    /// The queue of plain messages, in arrival order.
    pub messages: Vec<Message>,
    /// The queue of callback queries, in arrival order.
    pub callback_queries: Vec<CallbackQuery>,
}

impl Dispatcher {
    /// A dispatcher whose sinks are all empty.
    pub fn new() -> (r: Self)
        ensures
            r.messages@ == Seq::<Message>::empty(),
            r.callback_queries@ == Seq::<CallbackQuery>::empty(),
    {
        Dispatcher { messages: Vec::new(), callback_queries: Vec::new() }
    }

    /// Routes one event to the sink registered for its kind, appending
    /// it to that queue and leaving the other queue untouched. Returns
    /// whether a sink was found; an edited message has no registered
    /// sink and is dropped.
    pub fn dispatch(&mut self, kind: UpdateKind) -> (routed: bool)
        ensures
            match kind {
                UpdateKind::Message(m) => routed && final(self).messages@ == old(
                    self,
                ).messages@.push(m) && final(self).callback_queries@ == old(
                    self,
                ).callback_queries@,
                UpdateKind::CallbackQuery(q) => routed && final(self).callback_queries@ == old(
                    self,
                ).callback_queries@.push(q) && final(self).messages@ == old(self).messages@,
                UpdateKind::EditedMessage(_) => !routed && final(self).messages@ == old(
                    self,
                ).messages@ && final(self).callback_queries@ == old(self).callback_queries@,
            },
    {
        match kind {
            UpdateKind::Message(m) => {
                self.messages.push(m);
                true
            },
            UpdateKind::CallbackQuery(q) => {
                self.callback_queries.push(q);
                true
            },
            UpdateKind::EditedMessage(_) => false,
        }
    }

    /// Hands the queued messages to their consumer, in arrival order,
    /// leaving that sink empty and the other untouched.
    pub fn take_messages(&mut self) -> (r: Vec<Message>)
        ensures
            r@ == old(self).messages@,
            final(self).messages@ == Seq::<Message>::empty(),
            final(self).callback_queries@ == old(self).callback_queries@,
    {
        let mut drained: Vec<Message> = Vec::new();
        core::mem::swap(&mut drained, &mut self.messages);
        drained
    }

    /// Hands the queued callback queries to their consumer, in arrival
    /// order, leaving that sink empty and the other untouched.
    pub fn take_callback_queries(&mut self) -> (r: Vec<CallbackQuery>)
        ensures
            r@ == old(self).callback_queries@,
            final(self).callback_queries@ == Seq::<CallbackQuery>::empty(),
            final(self).messages@ == old(self).messages@,
    {
        let mut drained: Vec<CallbackQuery> = Vec::new();
        core::mem::swap(&mut drained, &mut self.callback_queries);
        drained
    }
}

/// The conversation an event belongs to: the chat a message was sent
/// in, or for a callback query the chat of the message its button was
/// attached to. `None` when the event carries no identifiable
/// conversation context, in which case it is dropped with a
/// diagnostic.
pub open spec fn spec_conversation_key(kind: UpdateKind) -> Option<i64> {
    match kind {
        UpdateKind::Message(m) => Some(m.chat_id),
        UpdateKind::EditedMessage(m) => Some(m.chat_id),
        UpdateKind::CallbackQuery(q) => match q.message {
            Some(m) => Some(m.chat_id),
            None => None,
        },
    }
}

/// Derives the conversation key of an event; see
/// [`spec_conversation_key`].
pub fn conversation_key(kind: &UpdateKind) -> (r: Option<i64>)
    ensures
        r == spec_conversation_key(*kind),
{
    match kind {
        UpdateKind::Message(m) => Some(m.chat_id),
        UpdateKind::EditedMessage(m) => Some(m.chat_id),
        UpdateKind::CallbackQuery(q) => match &q.message {
            Some(m) => Some(m.chat_id),
            None => None,
        },
    }
}

} // verus!
