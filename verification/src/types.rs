//! Domain entities: users, messages, updates and callback queries.
//!
//! These are the plain-value shapes the rest of the crate computes on.
//! The wire encoding of these entities is out of scope here; the code
//! that talks to the network converts to and from these types.

use vstd::prelude::*;

verus! {

/// A user of the messaging service.
#[derive(Clone, Debug, PartialEq)]
pub struct User {
    /// Unique identifier of the user.
    pub id: i64,
    /// Whether this user is a bot.
    pub is_bot: bool,
    /// The user's first name.
    pub first_name: String,
    /// The user's last name, if set.
    pub last_name: Option<String>,
    /// The user's username, if set.
    pub username: Option<String>,
    /// The user's language code, if known.
    pub language_code: Option<String>,
}

/// A chat message, reduced to the fields the dispatching layers read:
/// its identity, the chat it belongs to, and its text payload.
#[derive(Clone, Debug, PartialEq)]
pub struct Message {
    /// Unique identifier of the message within its chat.
    pub id: i32,
    /// Identifier of the chat the message was sent in.
    pub chat_id: i64,
    /// The text of the message, if it is a text message.
    pub text: Option<String>,
}

/// A chat destination: either a numeric chat identifier or a public
/// channel username.
#[derive(Clone, Debug, PartialEq)]
pub enum ChatId {
    /// A numeric chat identifier.
    Id(i64),
    /// A public channel username, in the form `@channelusername`.
    ChannelUsername(String),
}

/// An incoming callback query from a callback button in an inline
/// keyboard.
///
/// If the button that originated the query was attached to a message
/// sent by the bot, `message` is present. If the button was attached
/// to a message sent via the bot in inline mode, `inline_message_id`
/// is present. Exactly one of `data` or `game_short_name` is present.
#[derive(Clone, Debug, PartialEq)]
pub struct CallbackQuery {
    /// A unique identifier for this query.
    pub id: String,
    /// The sender.
    pub from: User,
    /// The message with the callback button that originated the query.
    pub message: Option<Message>,
    /// The identifier of the message sent via the bot in inline mode
    /// that originated the query.
    pub inline_message_id: Option<String>,
    /// A global identifier corresponding to the chat the button's
    /// message was sent to.
    pub chat_instance: String,
    /// The data associated with the callback button.
    pub data: Option<String>,
    /// The short name of a game to be returned.
    pub game_short_name: Option<String>,
}

impl CallbackQuery {
    /// Builds a query with the three required fields; the optional
    /// fields start out absent and are filled in with the builder
    /// methods below.
    pub fn new(id: String, from: User, chat_instance: String) -> (r: Self)
        ensures
            r.id == id,
            r.from == from,
            r.message is None,
            r.inline_message_id is None,
            r.chat_instance == chat_instance,
            r.data is None,
            r.game_short_name is None,
    {
        Self {
            id,
            from,
            message: None,
            inline_message_id: None,
            chat_instance,
            data: None,
            game_short_name: None,
        }
    }

    /// Replaces the query identifier, leaving every other field as is.
    pub fn id(self, id: String) -> (r: Self)
        ensures
            r == (Self { id, ..self }),
    {
        Self { id, ..self }
    }

    /// Replaces the sender, leaving every other field as is.
    pub fn from(self, val: User) -> (r: Self)
        ensures
            r == (Self { from: val, ..self }),
    {
        Self { from: val, ..self }
    }

    /// Sets the originating message, leaving every other field as is.
    pub fn message(self, val: Message) -> (r: Self)
        ensures
            r == (Self { message: Some(val), ..self }),
    {
        Self { message: Some(val), ..self }
    }

    /// Sets the inline message identifier, leaving every other field
    /// as is.
    pub fn inline_message_id(self, val: String) -> (r: Self)
        ensures
            r == (Self { inline_message_id: Some(val), ..self }),
    {
        Self { inline_message_id: Some(val), ..self }
    }

    /// Replaces the chat instance, leaving every other field as is.
    pub fn chat_instance(self, val: String) -> (r: Self)
        ensures
            r == (Self { chat_instance: val, ..self }),
    {
        Self { chat_instance: val, ..self }
    }

    /// Sets the callback data, leaving every other field as is.
    pub fn data(self, val: String) -> (r: Self)
        ensures
            r == (Self { data: Some(val), ..self }),
    {
        Self { data: Some(val), ..self }
    }

    /// Sets the game short name, leaving every other field as is.
    pub fn game_short_name(self, val: String) -> (r: Self)
        ensures
            r == (Self { game_short_name: Some(val), ..self }),
    {
        Self { game_short_name: Some(val), ..self }
    }
}

/// The payload of an update: which kind of event happened and its
/// typed contents. Kinds with no registered sink are dropped by the
/// dispatcher.
#[derive(Clone, Debug, PartialEq)]
pub enum UpdateKind {
    /// A new incoming text or media message.
    Message(Message),
    /// An edit of a previously sent message.
    EditedMessage(Message),
    /// A callback query from an inline keyboard button.
    CallbackQuery(CallbackQuery),
}

/// One event received from the remote service: a unique, monotonically
/// increasing identity together with its typed payload.
#[derive(Clone, Debug, PartialEq)]
pub struct Update {
    /// The identity of this update; the poller's cursor advances past
    /// the largest identity seen in each batch.
    pub id: i32,
    /// The typed payload.
    pub kind: UpdateKind,
}

/// A kind tag used to ask the remote service for a subset of update
/// kinds.
#[derive(Clone, Copy, Debug, PartialEq, Eq, Structural)]
pub enum AllowedUpdate {
    /// New messages.
    Message,
    /// Edits of earlier messages.
    EditedMessage,
    /// Callback queries.
    CallbackQuery,
}

} // verus!
