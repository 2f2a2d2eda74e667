//! What the bot answers to the callbacks of its keyboards and to the
//! commands of its users.

pub mod callback;
pub mod message;
