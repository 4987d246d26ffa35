use vstd::prelude::*;

use crate::error::ParseError;

verus! {

/// One `key=value` body token, split at the first `=`. Neither side is
/// required to be non-empty; only the separator had to be present.
#[derive(Debug, PartialEq)]
pub struct KvPair {
    pub k: String,
    pub v: String,
}

/// Whether the token holds a `=` separator at all.
pub open spec fn has_sep(s: Seq<char>) -> bool {
    s.contains('=')
}

/// Index of the first `=` in `s`; meaningful only when `has_sep(s)`.
pub open spec fn first_sep_index(s: Seq<char>) -> int
    decreases s.len(),
{
    if s.len() == 0 {
        0
    } else if s[0] == '=' {
        0
    } else {
        1 + first_sep_index(s.subrange(1, s.len() as int))
    }
}

/// The part of the token before the first `=`.
pub open spec fn key_of(s: Seq<char>) -> Seq<char> {
    s.subrange(0, first_sep_index(s))
}

/// The part of the token after the first `=`; later `=` characters are
/// kept verbatim as value content.
pub open spec fn value_of(s: Seq<char>) -> Seq<char> {
    s.subrange(first_sep_index(s) + 1, s.len() as int)
}

proof fn lemma_first_sep_index(s: Seq<char>, i: int)
    requires
        0 <= i < s.len(),
        s[i] == '=',
        forall|j: int| 0 <= j < i ==> s[j] != '=',
    ensures
        first_sep_index(s) == i,
    decreases i,
{
    if i > 0 {
        let t = s.subrange(1, s.len() as int);
        assert forall|j: int| 0 <= j < i - 1 implies t[j] != '=' by {
            assert(t[j] == s[j + 1]);
        }
        lemma_first_sep_index(t, i - 1);
    }
}

/// Split a raw token at the first `=`: everything before it is the
/// key, everything after it (any further `=` included) is the value.
/// A token with no `=` is rejected with `MissingSeparator`.
pub fn parse_kv_pair(raw: &str) -> (r: Result<KvPair, ParseError>)
    ensures
        r is Ok <==> has_sep(raw@),
        (r matches Ok(p) ==> p.k@ == key_of(raw@) && p.v@ == value_of(raw@)),
        (r matches Err(e) ==> e matches ParseError::MissingSeparator { raw: t } && t@ == raw@),
{
    let n = raw.unicode_len();
    let mut i: usize = 0;
    while i < n
        invariant
            n == raw@.len(),
            0 <= i <= n,
            forall|j: int| 0 <= j < i ==> raw@[j] != '=',
        decreases n - i,
    {
        if raw.get_char(i) == '=' {
            proof {
                lemma_first_sep_index(raw@, i as int);
                assert(has_sep(raw@)) by {
                    assert(raw@[i as int] == '=');
                }
            }
            let k = raw.substring_char(0, i).to_owned();
            let v = raw.substring_char(i + 1, n).to_owned();
            return Ok(KvPair { k, v });
        }
        i += 1;
    }
    proof {
        assert(!has_sep(raw@)) by {
            assert(forall|j: int| 0 <= j < raw@.len() ==> raw@[j] != '=');
        }
    }
    Err(ParseError::MissingSeparator { raw: raw.to_owned() })
}

/// The first body token without a `=`, the one whose rejection aborts
/// the whole parse.
pub open spec fn first_missing(tokens: Seq<String>, i: int) -> bool {
    &&& 0 <= i < tokens.len()
    &&& !has_sep(tokens[i]@)
    &&& forall|j: int| 0 <= j < i ==> has_sep(#[trigger] tokens[j]@)
}

/// Parse every body token in order. The resulting sequence keeps the
/// command-line order exactly; the first malformed token aborts the
/// parse with its own `MissingSeparator` error.
pub fn parse_body(tokens: &Vec<String>) -> (r: Result<Vec<KvPair>, ParseError>)
    ensures
        r is Ok <==> (forall|i: int| 0 <= i < tokens@.len() ==> has_sep(#[trigger] tokens@[i]@)),
        (r matches Ok(body) ==> {
            &&& body@.len() == tokens@.len()
            &&& forall|i: int| 0 <= i < tokens@.len()
                ==> (#[trigger] body@[i]).k@ == key_of(tokens@[i]@) && body@[i].v@ == value_of(
                    tokens@[i]@,
                )
        }),
        (r matches Err(e) ==> exists|i: int|
            #[trigger] first_missing(tokens@, i) && (e matches ParseError::MissingSeparator {
                raw: t,
            } && t@ == tokens@[i]@)),
{
    let mut body: Vec<KvPair> = Vec::new();
    let n = tokens.len();
    let mut i: usize = 0;
    while i < n
        invariant
            n == tokens@.len(),
            0 <= i <= n,
            body@.len() == i,
            forall|j: int| 0 <= j < i ==> has_sep(#[trigger] tokens@[j]@),
            forall|j: int| 0 <= j < i
                ==> (#[trigger] body@[j]).k@ == key_of(tokens@[j]@) && body@[j].v@ == value_of(
                    tokens@[j]@,
                ),
        decreases n - i,
    {
        match parse_kv_pair(tokens[i].as_str()) {
            Ok(p) => body.push(p),
            Err(e) => {
                proof {
                    assert(first_missing(tokens@, i as int));
                }
                return Err(e);
            },
        }
        i += 1;
    }
    Ok(body)
}

} // verus!
