//! State and conversation memory for an assistant on a chat platform: the
//! rolling dialogue of each user, the records of interactive messages,
//! reminders and feedback, the manager that owns them, the recovery of a
//! structured reply from the free text of a model, and the sweep that hands
//! out due reminders.

pub mod ai;
pub mod cards;
pub mod commands;
pub mod conversation;
pub mod data;
pub mod deferred;
pub mod delivery;
pub mod emotions;
pub mod gemini;
pub mod lang;
pub mod message_data;
pub mod persistence;
pub mod prompt;
pub mod recovery;
pub mod responses;
pub mod schedule;
pub mod store;
pub mod text;
pub mod time;
