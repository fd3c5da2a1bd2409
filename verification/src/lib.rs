//! Validated-construction pipeline for user registration.
//!
//! The crate builds an insertable user from an unordered stream of form
//! parts, collecting every validation failure instead of stopping at the
//! first one, and issues the random confirmation tokens used by the
//! registration flow.

pub mod configuration;
pub mod erro;
pub mod register;
pub mod tokens;
pub mod users;
