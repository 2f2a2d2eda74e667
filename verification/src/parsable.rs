//! The messages exchanged with the appointment service.

pub mod basic;
pub mod doctors;
pub mod referrals;
