//! What the community does of its own accord when something happens.

pub mod join;
