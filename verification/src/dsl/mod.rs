//! The data model of a check definition and the diagnostics about it.

pub mod display;
pub mod parsing;
pub mod types;
pub mod validation;
