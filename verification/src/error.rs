use vstd::prelude::*;

verus! {

/// The user-input errors of the parsing layer. Every one is terminal
/// for the invocation: no partial command is ever exposed.
#[derive(Debug, PartialEq)]
pub enum ParseError {
    /// The token did not parse as an absolute URL; carries the raw
    /// token and the parser's diagnostic text.
    InvalidUrl { raw: String, cause: String },
    /// A body token held no `=` separator; carries the raw token.
    MissingSeparator { raw: String },
    /// The subcommand token was neither `get` nor `post`; carries it.
    UnknownSubcommand { token: String },
}

} // verus!
