//! Event delivery for a long-polling messaging bot.
//!
//! The crate is built from four verified layers. The cursor-tracking
//! poller ([`update_listeners`]) turns raw network batches into events
//! while advancing a monotone offset. Batch adapters filter out
//! transport errors and project events to their payload kind. The
//! [`dispatcher`] fans events out to per-kind sink queues, and the
//! [`dialogue`] dispatcher drives a typed per-conversation state
//! machine, keyed by chat identity.
//!
//! All network, serialization and task plumbing lives outside this
//! crate; the functions here take plain values (batches already split
//! into entries, inputs already extracted from events) and state in
//! their contracts exactly what they return and how they change state.

pub mod delete_message;
pub mod dialogue;
pub mod dispatcher;
pub mod errors;
pub mod types;
pub mod update_listeners;
