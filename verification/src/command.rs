use vstd::prelude::*;

use crate::error::ParseError;
use crate::kv::{KvPair, has_sep, key_of, value_of, first_missing, parse_body};
use crate::url_check::{url_ok, validate_url};

verus! {

/// The HTTP method selected by the subcommand token.
#[derive(Debug, Clone, Copy, PartialEq, Eq, Structural)]
pub enum Method {
    Get,
    Post,
}

/// A fully validated invocation. Either variant is built only after
/// every field passed its gate; a failure anywhere aborts the parse.
#[derive(Debug, PartialEq)]
pub enum Command {
    Get { url: String },
    Post { url: String, body: Vec<KvPair> },
}

/// Character-by-character string comparison, so that the dispatch on
/// the subcommand token is itself verified.
fn str_eq(a: &str, b: &str) -> (r: bool)
    ensures
        r == (a@ == b@),
{
    let an = a.unicode_len();
    let bn = b.unicode_len();
    if an != bn {
        return false;
    }
    let mut i: usize = 0;
    while i < an
        invariant
            an == a@.len(),
            bn == b@.len(),
            an == bn,
            0 <= i <= an,
            forall|j: int| 0 <= j < i ==> a@[j] == b@[j],
        decreases an - i,
    {
        if a.get_char(i) != b.get_char(i) {
            return false;
        }
        i += 1;
    }
    proof {
        assert(a@ =~= b@);
    }
    true
}

/// Select the command variant from the first token: `get` and `post`
/// are the only subcommands; anything else is `UnknownSubcommand`.
pub fn dispatch_method(token: &str) -> (r: Result<Method, ParseError>)
    ensures
        r is Ok <==> (token@ == "get"@ || token@ == "post"@),
        (r matches Ok(m) ==> (m is Get <==> token@ == "get"@) && (m is Post <==> token@
            == "post"@)),
        (r matches Err(e) ==> e matches ParseError::UnknownSubcommand { token: t } && t@
            == token@),
{
    proof {
        reveal_strlit("get");
        reveal_strlit("post");
        assert("get"@.len() == 3);
        assert("post"@.len() == 4);
    }
    if str_eq(token, "get") {
        Ok(Method::Get)
    } else if str_eq(token, "post") {
        Ok(Method::Post)
    } else {
        Err(ParseError::UnknownSubcommand { token: token.to_owned() })
    }
}

/// The `get` path: the single remaining token through the URL gate,
/// then a `Get` command.
pub fn build_get(url: &str) -> (r: Result<Command, ParseError>)
    ensures
        r is Ok <==> url_ok(url@),
        (r matches Ok(c) ==> c matches Command::Get { url: u } && u@ == url@),
        (r matches Err(e) ==> e matches ParseError::InvalidUrl { raw: t, .. } && t@ == url@),
{
    match validate_url(url) {
        Ok(u) => Ok(Command::Get { url: u }),
        Err(e) => Err(e),
    }
}

/// The `post` path: the first remaining token through the URL gate,
/// every later token through the pair parser, in command-line order.
pub fn build_post(url: &str, tokens: &Vec<String>) -> (r: Result<Command, ParseError>)
    ensures
        r is Ok <==> (url_ok(url@) && (forall|i: int| 0 <= i < tokens@.len() ==> has_sep(
            #[trigger] tokens@[i]@,
        ))),
        (r matches Ok(c) ==> {
            &&& c matches Command::Post { url: u, body }
            &&& u@ == url@
            &&& body@.len() == tokens@.len()
            &&& forall|i: int| 0 <= i < tokens@.len()
                ==> (#[trigger] body@[i]).k@ == key_of(tokens@[i]@) && body@[i].v@ == value_of(
                    tokens@[i]@,
                )
        }),
        (r matches Err(e) ==> {
            ||| (!url_ok(url@) && (e matches ParseError::InvalidUrl { raw: t, .. } && t@ == url@))
            ||| (url_ok(url@) && (exists|i: int|
                #[trigger] first_missing(tokens@, i) && (e matches ParseError::MissingSeparator {
                    raw: t,
                } && t@ == tokens@[i]@)))
        }),
{
    let u = match validate_url(url) {
        Ok(u) => u,
        Err(e) => {
            return Err(e);
        },
    };
    let body = match parse_body(tokens) {
        Ok(b) => b,
        Err(e) => {
            return Err(e);
        },
    };
    Ok(Command::Post { url: u, body })
}

} // verus!
