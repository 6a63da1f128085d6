//! Configuration resolution for a local LLM inference launcher.
//!
//! The catalog module defines the closed set of supported prompt-template
//! formats together with the alias table that maps accepted input strings to
//! template variants. The resolver module turns optional, possibly invalid,
//! operator input into exactly one catalog variant, falling back to a
//! single-choice selection when the input is missing or unrecognized.

pub mod catalog;
pub mod resolver;
