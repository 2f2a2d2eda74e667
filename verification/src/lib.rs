//! Rules of a chat bot that tracks referral appointments: the record store,
//! the response model of the appointment service, the texts and keyboards
//! shown to the user, and the navigation between them.

pub mod text;
pub mod date;
pub mod parsable;
pub mod store;
pub mod helper;
pub mod em_commands;
pub mod navigation;
pub mod scheduler;
pub mod json;
