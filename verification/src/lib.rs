//! Argument parsing and validation for a small httpie-style CLI:
//! URL syntax gating, `key=value` tokenization, and assembly of the
//! resulting command model.

pub mod command;
pub mod error;
pub mod kv;
pub mod url_check;
