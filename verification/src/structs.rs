//! The records that the workflows read and write.

pub mod account;
pub mod quote;
pub mod user;
pub mod vouch;
