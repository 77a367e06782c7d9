//! Membership vetting for a chat community: a registry of pending vouches,
//! the submit / approve / deny workflows that drive it, and the onboarding
//! notice, each written as a transition function whose contract states the
//! next step for every answer the platform can give.

pub mod effects;
pub mod error;
pub mod events;
pub mod handlers;
pub mod laws;
pub mod clock;
pub mod commands;
pub mod registry;
pub mod settings;
pub mod snowflake;
pub mod structs;
pub mod text;
pub mod utils;
