//! Core of a glue-code generation plugin protocol: an orchestrating build tool
//! launches a helper process with a fixed marker argument and hands it one JSON
//! payload on standard input, naming an interface description and a destination
//! crate. This crate holds the invocation guard, the payload decoder, the
//! generation context passed to a helper, and the crate-builder factory.
//!
//! Process-facing plumbing (argument and standard-input acquisition) lives in a
//! thin unverified shell around this crate; everything here is verified.

pub mod cli;
pub mod codegen;
pub mod json;
pub mod payload;
