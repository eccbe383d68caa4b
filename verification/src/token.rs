//! Compact-token structure: the three dot-separated base64url sections,
//! and the unverified header read that yields the key id.

use vstd::prelude::*;
use vstd::utf8::is_ascii_chars;

use crate::b64::b64url_decode_ascii;
use crate::b64::spec_b64url_decode;
use crate::errors::AuthError;
use crate::json::JsonPrim;
use crate::json::JsonPrimM;
use crate::json::JsonTopVal;
use crate::json::JsonTopValM;
use crate::json::doc_field;
use crate::json::doc_lookup;
use crate::json::json_doc_of;
use crate::json::parse_json_doc;
use crate::json::string_eq_str;

verus! {

/// Positions `i < j` carry the only two dots of the text.
pub open spec fn is_dot_split(t: Seq<char>, i: int, j: int) -> bool {
    &&& 0 <= i < j < t.len()
    &&& t[i] == '.'
    &&& t[j] == '.'
    &&& forall|k: int| 0 <= k < t.len() && t[k] == '.' ==> k == i || k == j
}

/// The three sections of a token with exactly two dots, `None` otherwise.
pub open spec fn token_parts(t: Seq<char>) -> Option<(Seq<char>, Seq<char>, Seq<char>)> {
    if exists|i: int, j: int| is_dot_split(t, i, j) {
        let (i, j) = choose|i: int, j: int| is_dot_split(t, i, j);
        Some((t.take(i), t.subrange(i + 1, j), t.skip(j + 1)))
    } else {
        None
    }
}

/// A text has at most one dot split.
proof fn lemma_dot_split_unique(t: Seq<char>, i1: int, j1: int, i2: int, j2: int)
    requires
        is_dot_split(t, i1, j1),
        is_dot_split(t, i2, j2),
    ensures
        i1 == i2,
        j1 == j2,
{
    assert(i1 == i2 || i1 == j2);
    assert(j1 == i2 || j1 == j2);
    assert(i2 == i1 || i2 == j1);
}

/// Finds the positions of the token's two dots, or `None` when there are
/// fewer or more dots than two.
fn find_dot_split(s: &str) -> (r: Option<(usize, usize)>)
    requires
        s.is_ascii(),
    ensures
        match r {
            Some(pair) => is_dot_split(s@, pair.0 as int, pair.1 as int),
            None => !(exists|i: int, j: int| is_dot_split(s@, i, j)),
        },
{
    let n = s.unicode_len();
    let mut first: Option<usize> = None;
    let mut second: Option<usize> = None;
    let mut i: usize = 0;
    while i < n
        invariant
            s.is_ascii(),
            n == s@.len(),
            i <= n,
            match (first, second) {
                (Option::None, Option::None) => forall|k: int| 0 <= k < i ==> s@[k] != '.',
                (Option::Some(f), Option::None) => (f as int) < i && s@[f as int] == '.' && (
                forall|k: int| 0 <= k < i && k != f as int ==> s@[k] != '.'),
                (Option::Some(f), Option::Some(g)) => (f as int) < (g as int) && (g as int) < i
                    && s@[f as int] == '.' && s@[g as int] == '.' && (forall|k: int|
                    0 <= k < i && k != f as int && k != g as int ==> s@[k] != '.'),
                (Option::None, Option::Some(_)) => false,
            },
        decreases n - i,
    {
        let c = s.get_ascii(i);
        proof {
            assert('\0' <= s@[i as int] <= '\u{7f}');
            assert(s@[i as int] as int == c as int);
        }
        if c == 46 {
            proof {
                assert(s@[i as int] == '.');
            }
            if first.is_none() {
                first = Some(i);
            } else if second.is_none() {
                second = Some(i);
            } else {
                proof {
                    let f = first.unwrap() as int;
                    let g = second.unwrap() as int;
                    if exists|a: int, b: int| is_dot_split(s@, a, b) {
                        let (a, b) = choose|a: int, b: int| is_dot_split(s@, a, b);
                        assert(f == a || f == b);
                        assert(g == a || g == b);
                        assert(i as int == a || i as int == b);
                        assert(false);
                    }
                }
                return None;
            }
        } else {
            proof {
                assert(s@[i as int] != '.');
            }
        }
        i = i + 1;
    }
    match (first, second) {
        (Some(f), Some(g)) => {
            proof {
                assert(is_dot_split(s@, f as int, g as int));
            }
            Some((f, g))
        },
        (Some(f), None) => {
            proof {
                if exists|a: int, b: int| is_dot_split(s@, a, b) {
                    let (a, b) = choose|a: int, b: int| is_dot_split(s@, a, b);
                    assert(a == f as int && b == f as int);
                    assert(false);
                }
            }
            None
        },
        _ => {
            proof {
                if exists|a: int, b: int| is_dot_split(s@, a, b) {
                    let (a, b) = choose|a: int, b: int| is_dot_split(s@, a, b);
                    assert(s@[a] == '.');
                    assert(false);
                }
            }
            None
        },
    }
}

/// Splits an ASCII token into its header, payload and signature sections.
pub fn split_token<'a>(s: &'a str) -> (r: Option<(&'a str, &'a str, &'a str)>)
    requires
        s.is_ascii(),
    ensures
        match r {
            Some(parts) => token_parts(s@) == Some((parts.0@, parts.1@, parts.2@))
                && parts.0.is_ascii() && parts.1.is_ascii() && parts.2.is_ascii(),
            None => token_parts(s@) is None,
        },
{
    match find_dot_split(s) {
        Some(pair) => {
            let (i, j) = pair;
            let n = s.unicode_len();
            let h = s.substring_ascii(0, i);
            let p = s.substring_ascii(i + 1, j);
            let sig = s.substring_ascii(j + 1, n);
            proof {
                let (ci, cj) = choose|a: int, b: int| is_dot_split(s@, a, b);
                lemma_dot_split_unique(s@, i as int, j as int, ci, cj);
                assert(s@.subrange(0, i as int) =~= s@.take(i as int));
                assert(s@.subrange(j + 1, n as int) =~= s@.skip(j + 1));
            }
            Some((h, p, sig))
        },
        None => None,
    }
}

/// The boundary's reading of a token's unverified header: the key id, when the
/// token's first section is a base64url JSON object naming the RS256
/// algorithm.  A structural failure is `MalformedToken`; a well-formed
/// RS256 header without a string `kid` is `UnknownKeyId`, found before any
/// network access.
pub open spec fn key_id_model(t: Seq<char>) -> Result<Seq<char>, AuthError> {
    if !is_ascii_chars(t) {
        Err(AuthError::MalformedToken)
    } else {
        match token_parts(t) {
            None => Err(AuthError::MalformedToken),
            Some(parts) => match spec_b64url_decode(parts.0) {
                None => Err(AuthError::MalformedToken),
                Some(hb) => match json_doc_of(hb) {
                    None => Err(AuthError::MalformedToken),
                    Some(d) => if doc_lookup(d.fields, "alg"@) != Some(
                        JsonTopValM::Prim(JsonPrimM::Text("RS256"@)),
                    ) {
                        Err(AuthError::MalformedToken)
                    } else {
                        match doc_lookup(d.fields, "kid"@) {
                            Some(JsonTopValM::Prim(JsonPrimM::Text(kid))) => Ok(kid),
                            _ => Err(AuthError::UnknownKeyId),
                        }
                    },
                },
            },
        }
    }
}

/// Reads the key id out of the token's unverified header, confirming the
/// RS256 algorithm on the way; no signature is checked here.
pub fn token_key_id(token: &str) -> (r: Result<String, AuthError>)
    ensures
        match r {
            Ok(kid) => key_id_model(token@) == Ok::<Seq<char>, AuthError>(kid@),
            Err(e) => key_id_model(token@) == Err::<Seq<char>, AuthError>(e),
        },
{
    if !token.is_ascii() {
        return Err(AuthError::MalformedToken);
    }
    let parts = match split_token(token) {
        Some(parts) => parts,
        None => {
            return Err(AuthError::MalformedToken);
        },
    };
    let header_bytes = match b64url_decode_ascii(parts.0) {
        Some(v) => v,
        None => {
            return Err(AuthError::MalformedToken);
        },
    };
    let doc = match parse_json_doc(header_bytes.as_slice()) {
        Some(d) => d,
        None => {
            return Err(AuthError::MalformedToken);
        },
    };
    let alg_ok = match doc_field(&doc, "alg") {
        Some(JsonTopVal::Prim(JsonPrim::Text(a))) => string_eq_str(a, "RS256"),
        _ => false,
    };
    if !alg_ok {
        return Err(AuthError::MalformedToken);
    }
    match doc_field(&doc, "kid") {
        Some(JsonTopVal::Prim(JsonPrim::Text(kid))) => Ok(kid.clone()),
        _ => Err(AuthError::UnknownKeyId),
    }
}

} // verus!
