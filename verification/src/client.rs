//! The device's side: its session, and the rule by which it waits for an
//! answer.

pub mod channel;
pub mod session;
