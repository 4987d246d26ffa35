use vstd::prelude::*;

use crate::error::ParseError;

verus! {

/// Whether `s` parses as an absolute URL — scheme and host present —
/// under the URL grammar of the HTTP client's parser.
pub uninterp spec fn url_ok(s: Seq<char>) -> bool;

/// Relies on reqwest::Url::parse (the url crate's parser, re-exported
/// by reqwest): a purely syntactic absolute-URL check whose outcome
/// depends on the input string alone. The error's display text is the
/// parse diagnostic.
#[verifier::external_body]
fn check_url_syntax(s: &str) -> (r: Option<String>)
    ensures
        r is None <==> url_ok(s@),
{
    match reqwest::Url::parse(s) {
        Ok(_) => None,
        Err(e) => Some(e.to_string()),
    }
}

/// Gate an arbitrary token: hand back the very same string when it
/// parses as an absolute URL, else `InvalidUrl` carrying the raw token
/// and the parser's diagnostic. A gate, not a normalizer: nothing is
/// canonicalised, lowercased or stripped.
pub fn validate_url(raw: &str) -> (r: Result<String, ParseError>)
    ensures
        r is Ok <==> url_ok(raw@),
        (r matches Ok(u) ==> u@ == raw@),
        (r matches Err(e) ==> e matches ParseError::InvalidUrl { raw: t, .. } && t@ == raw@),
{
    match check_url_syntax(raw) {
        None => Ok(raw.to_owned()),
        Some(cause) => Err(ParseError::InvalidUrl { raw: raw.to_owned(), cause }),
    }
}

} // verus!
