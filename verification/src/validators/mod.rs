//! The validators. Each reads the part of a check definition it knows about
//! and reports what it finds.

pub mod deprecation_validator;
pub mod expectation_validator;
pub mod link_validator;
pub mod schema_validator;
pub mod value_validator;
