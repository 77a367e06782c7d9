//! The operations that members and admins invoke.

pub mod action;
pub mod cta;
pub mod cuteness;
pub mod dog;
pub mod eval;
pub mod ping;
pub mod profile;
pub mod quote;
pub mod vouch;
