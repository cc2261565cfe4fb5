//! The error value of a GraphQL client: one type for a failed transport and
//! for the error entries of a GraphQL response, with predicates over the
//! entries and a fixed textual rendering.
//!
//! - [`model`]: what an error is, mathematically, and what its predicates
//!   and its rendering are.
//! - [`error`]: the error value and its entries, with contracts over the
//!   model.
//! - [`wire`]: the JSON shape of an error list, and its decoding.
//! - [`transport`]: the conversion from `reqwest`'s error.
//! - [`json`]: the contracts under which `serde_json` values are read.
//! - [`text`]: exact comparison of strings.
//! - [`laws`]: what holds of every error value.

pub mod error;
pub mod json;
pub mod laws;
pub mod model;
pub mod text;
pub mod transport;
pub mod wire;
