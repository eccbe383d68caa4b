//! Token validation: structure, signature, claims, expiry, issuer — a
//! linear chain of checks, each a possible rejection point, and the
//! authenticated identity on success.

use vstd::prelude::*;
use vstd::string::StringSliceAdditionalSpecFns;
use vstd::utf8::is_ascii_chars;

use crate::b64::b64url_decode_ascii;
use crate::b64::spec_b64url_decode;
use crate::errors::AuthError;
use crate::json::JsonDoc;
use crate::json::JsonDocM;
use crate::json::JsonPrim;
use crate::json::JsonPrimM;
use crate::json::JsonTopVal;
use crate::json::JsonTopValM;
use crate::json::doc_field;
use crate::json::doc_lookup;
use crate::json::json_doc_of;
use crate::json::parse_json_doc;
use crate::json::string_eq_str;
use crate::keys::KeyOriginM;
use crate::keys::RsaKey;
use crate::keys::key_verifies;
use crate::keys::rs256_verify;
use crate::token::is_dot_split;
use crate::token::split_token;
use crate::token::token_parts;

verus! {

/// How many seconds past its expiry a token is still taken, allowing for
/// clock skew between issuer and verifier.
pub const CLOCK_SKEW_SECONDS: i64 = 60;

/// The signed claims this library reads.  `aud` is optional by policy: the
/// upstream issuer does not reliably set it, so it is carried but never
/// validated — deliberately.
#[derive(Debug, Clone)]
pub struct Claims {
    /// Subject: the authenticated user's identifier.
    pub sub: String,
    /// Issued-at, in whole seconds since the epoch; required but not
    /// validated.
    pub iat: i64,
    /// Expiry, in whole seconds since the epoch.
    pub exp: i64,
    /// Issuer.
    pub iss: String,
    /// Audience; carried, never validated.
    pub aud: Option<String>,
}

/// The mathematical image of [`Claims`].
pub struct ClaimsM {
    pub sub: Seq<char>,
    pub iat: int,
    pub exp: int,
    pub iss: Seq<char>,
    pub aud: Option<Seq<char>>,
}

impl View for Claims {
    type V = ClaimsM;

    open spec fn view(&self) -> ClaimsM {
        ClaimsM {
            sub: self.sub@,
            iat: self.iat as int,
            exp: self.exp as int,
            iss: self.iss@,
            aud: match self.aud {
                Some(a) => Some(a@),
                None => None,
            },
        }
    }
}

/// The authenticated identity: the sole artifact of success.  No claim
/// beyond the subject is exposed downstream.
#[derive(Debug, Clone)]
pub struct AuthUser {
    pub user_id: String,
}

/// The claims a payload object carries, when the required fields are
/// present with their required types: string `sub` and `iss`, integer
/// `iat` and `exp`, and `aud` absent, null, or a string.
pub open spec fn claims_of_doc(d: JsonDocM) -> Option<ClaimsM> {
    match (
        doc_lookup(d.fields, "sub"@),
        doc_lookup(d.fields, "iat"@),
        doc_lookup(d.fields, "exp"@),
        doc_lookup(d.fields, "iss"@),
    ) {
        (
            Some(JsonTopValM::Prim(JsonPrimM::Text(sub))),
            Some(JsonTopValM::Prim(JsonPrimM::Int(iat))),
            Some(JsonTopValM::Prim(JsonPrimM::Int(exp))),
            Some(JsonTopValM::Prim(JsonPrimM::Text(iss))),
        ) => match doc_lookup(d.fields, "aud"@) {
            None => Some(ClaimsM { sub, iat, exp, iss, aud: None }),
            Some(JsonTopValM::Prim(JsonPrimM::Null)) => Some(
                ClaimsM { sub, iat, exp, iss, aud: None },
            ),
            Some(JsonTopValM::Prim(JsonPrimM::Text(a))) => Some(
                ClaimsM { sub, iat, exp, iss, aud: Some(a) },
            ),
            _ => None,
        },
        _ => None,
    }
}

/// The claims of a payload given as bytes.
pub open spec fn claims_of_bytes(bytes: Seq<u8>) -> Option<ClaimsM> {
    match json_doc_of(bytes) {
        Some(d) => claims_of_doc(d),
        None => None,
    }
}

/// Reads the required claims out of a parsed payload object.
pub fn claims_from_doc(d: &JsonDoc) -> (r: Option<Claims>)
    ensures
        match r {
            Some(c) => claims_of_doc(d@) == Some(c@),
            None => claims_of_doc(d@) is None,
        },
{
    let sub = match doc_field(d, "sub") {
        Some(JsonTopVal::Prim(JsonPrim::Text(s))) => s.clone(),
        _ => {
            return None;
        },
    };
    let iat = match doc_field(d, "iat") {
        Some(JsonTopVal::Prim(JsonPrim::Int(v))) => *v,
        _ => {
            return None;
        },
    };
    let exp = match doc_field(d, "exp") {
        Some(JsonTopVal::Prim(JsonPrim::Int(v))) => *v,
        _ => {
            return None;
        },
    };
    let iss = match doc_field(d, "iss") {
        Some(JsonTopVal::Prim(JsonPrim::Text(s))) => s.clone(),
        _ => {
            return None;
        },
    };
    let aud = match doc_field(d, "aud") {
        None => None,
        Some(JsonTopVal::Prim(JsonPrim::Null)) => None,
        Some(JsonTopVal::Prim(JsonPrim::Text(a))) => Some(a.clone()),
        _ => {
            return None;
        },
    };
    Some(Claims { sub, iat, exp, iss, aud })
}

/// The bytes of an ASCII character sequence, code for code.
pub open spec fn ascii_bytes(s: Seq<char>) -> Seq<u8> {
    Seq::new(s.len(), |i: int| s[i] as u8)
}

/// The signing input of a token: header section, dot, payload section, as
/// bytes.
pub open spec fn sig_input(h: Seq<char>, p: Seq<char>) -> Seq<u8> {
    ascii_bytes(h) + seq![46u8] + ascii_bytes(p)
}

/// What validation decides on a token, under a key, an expected issuer and
/// a validation time: the subject on success, and the exact rejection
/// otherwise.  The checks run in order — structure, signature, claims,
/// expiry, issuer — and the first to fail names the outcome.
pub open spec fn validate_model(
    t: Seq<char>,
    key: KeyOriginM,
    issuer: Seq<char>,
    now: int,
) -> Result<Seq<char>, AuthError> {
    if !is_ascii_chars(t) {
        Err(AuthError::MalformedToken)
    } else {
        match token_parts(t) {
            None => Err(AuthError::MalformedToken),
            Some(parts) => match (spec_b64url_decode(parts.0), spec_b64url_decode(parts.1)) {
                (Some(hb), Some(pb)) => {
                    if !key_verifies(sig_input(parts.0, parts.1), parts.2, key) {
                        Err(AuthError::SignatureInvalid)
                    } else {
                        match claims_of_bytes(pb) {
                            None => Err(AuthError::ClaimsMalformed),
                            Some(c) => if !(c.exp > now - CLOCK_SKEW_SECONDS) {
                                Err(AuthError::Expired)
                            } else if c.iss != issuer {
                                Err(AuthError::IssuerMismatch)
                            } else {
                                Ok(c.sub)
                            },
                        }
                    }
                },
                _ => Err(AuthError::MalformedToken),
            },
        }
    }
}

/// Validates a raw token against a resolved key: RS256 signature, required
/// claims, expiry against `now` with the clock-skew allowance, and exact
/// issuer comparison.  Audience is deliberately not validated.
pub fn validate_token(token: &str, key: &RsaKey, expected_issuer: &str, now: i64) -> (r: Result<
    AuthUser,
    AuthError,
>)
    ensures
        match r {
            Ok(u) => validate_model(token@, key@, expected_issuer@, now as int)
                == Ok::<Seq<char>, AuthError>(u.user_id@),
            Err(e) => validate_model(token@, key@, expected_issuer@, now as int) == Err::<
                Seq<char>,
                AuthError,
            >(e),
        },
{
    if !token.is_ascii() {
        return Err(AuthError::MalformedToken);
    }
    let parts = match split_token(token) {
        Some(parts) => parts,
        None => {
            return Err(AuthError::MalformedToken);
        },
    };
    let (h, p, sig) = parts;
    let hb = match b64url_decode_ascii(h) {
        Some(v) => v,
        None => {
            return Err(AuthError::MalformedToken);
        },
    };
    let pb = match b64url_decode_ascii(p) {
        Some(v) => v,
        None => {
            return Err(AuthError::MalformedToken);
        },
    };
    let hl = h.unicode_len();
    let pl = p.unicode_len();
    let n = token.unicode_len();
    let ghost t = token@;
    proof {
        let (ci, cj) = choose|a: int, b: int| is_dot_split(t, a, b);
        assert(h@ == t.take(ci));
        assert(p@ == t.subrange(ci + 1, cj));
        assert(hl + 1 + pl == cj);
        assert(cj < n);
    }
    let js = hl + 1 + pl;
    let signed = token.substring_ascii(0, js);
    proof {
        vstd::string::is_ascii_spec_bytes(signed);
        let (ci, cj) = choose|a: int, b: int| is_dot_split(t, a, b);
        assert(signed@ == t.take(cj));
        assert(signed.spec_bytes() =~= ascii_bytes(signed@));
        assert forall|k: int| 0 <= k < cj implies ascii_bytes(t.take(cj))[k] == sig_input(
            h@,
            p@,
        )[k] by {
            if k < ci {
            } else if k == ci {
                assert(t[ci] == '.');
                assert(t.take(cj)[k] as u8 == 46u8);
            } else {
                assert(sig_input(h@, p@)[k] == ascii_bytes(p@)[k - ci - 1]);
            }
        }
        assert(ascii_bytes(t.take(cj)) =~= sig_input(h@, p@));
    }
    let sig_ok = rs256_verify(signed.as_bytes(), sig, key);
    if !sig_ok {
        return Err(AuthError::SignatureInvalid);
    }
    let doc = match parse_json_doc(pb.as_slice()) {
        Some(d) => d,
        None => {
            return Err(AuthError::ClaimsMalformed);
        },
    };
    let claims = match claims_from_doc(&doc) {
        Some(c) => c,
        None => {
            return Err(AuthError::ClaimsMalformed);
        },
    };
    if !((claims.exp as i128) > (now as i128) - (CLOCK_SKEW_SECONDS as i128)) {
        return Err(AuthError::Expired);
    }
    if !string_eq_str(&claims.iss, expected_issuer) {
        return Err(AuthError::IssuerMismatch);
    }
    Ok(AuthUser { user_id: claims.sub })
}

/// Any token signed under the key, carrying well-formed unexpired claims
/// with the expected issuer, validates to exactly its subject.
pub proof fn lemma_valid_token_accepted(
    t: Seq<char>,
    key: KeyOriginM,
    issuer: Seq<char>,
    now: int,
    h: Seq<char>,
    p: Seq<char>,
    sig: Seq<char>,
    pb: Seq<u8>,
    c: ClaimsM,
)
    requires
        is_ascii_chars(t),
        token_parts(t) == Some((h, p, sig)),
        spec_b64url_decode(h) is Some,
        spec_b64url_decode(p) == Some(pb),
        key_verifies(sig_input(h, p), sig, key),
        claims_of_bytes(pb) == Some(c),
        c.exp > now - CLOCK_SKEW_SECONDS,
        c.iss == issuer,
    ensures
        validate_model(t, key, issuer, now) == Ok::<Seq<char>, AuthError>(c.sub),
{
}

/// A validly-structured token whose expiry lies in the past is rejected as
/// `Expired` whenever its signature verifies — expiry wins over any later
/// check.
pub proof fn lemma_expired_rejected(
    t: Seq<char>,
    key: KeyOriginM,
    issuer: Seq<char>,
    now: int,
    h: Seq<char>,
    p: Seq<char>,
    sig: Seq<char>,
    pb: Seq<u8>,
    c: ClaimsM,
)
    requires
        is_ascii_chars(t),
        token_parts(t) == Some((h, p, sig)),
        spec_b64url_decode(h) is Some,
        spec_b64url_decode(p) == Some(pb),
        key_verifies(sig_input(h, p), sig, key),
        claims_of_bytes(pb) == Some(c),
        c.exp <= now - CLOCK_SKEW_SECONDS,
    ensures
        validate_model(t, key, issuer, now) == Err::<Seq<char>, AuthError>(AuthError::Expired),
{
}

/// A token whose signature does not verify under the key — wrong key, or
/// tampered sections — is rejected as `SignatureInvalid`, whatever its
/// payload says.
pub proof fn lemma_bad_signature_rejected(
    t: Seq<char>,
    key: KeyOriginM,
    issuer: Seq<char>,
    now: int,
    h: Seq<char>,
    p: Seq<char>,
    sig: Seq<char>,
)
    requires
        is_ascii_chars(t),
        token_parts(t) == Some((h, p, sig)),
        spec_b64url_decode(h) is Some,
        spec_b64url_decode(p) is Some,
        !key_verifies(sig_input(h, p), sig, key),
    ensures
        validate_model(t, key, issuer, now) == Err::<Seq<char>, AuthError>(
            AuthError::SignatureInvalid,
        ),
{
}

} // verus!
