//! Construction of universally unique identifiers in the standard versions
//! one, three, four, five, six, seven and eight, and their canonical text.
//!
//! A [`GenerationRequest`] says which version to build and from what;
//! [`generate_uuid`] builds one identifier for it and [`generate_lines`] the
//! lines of a whole run. The hashing, the clock and the random bits come from
//! the `uuid` crate, through the functions of [`backend`].

pub mod backend;
pub mod clock;
pub mod custom;
pub mod format;
pub mod generate;
pub mod id;
pub mod layout;
pub mod output;
pub mod request;

pub use crate::clock::Timestamp;
pub use crate::format::to_hyphenated;
pub use crate::generate::generate_uuid;
pub use crate::id::Uuid;
pub use crate::output::{clipboard_text, exit_code, generate_lines, plan_copy, CopyPlan};
pub use crate::request::{validate, GenerationRequest, UuidVersion, ValidationError};
