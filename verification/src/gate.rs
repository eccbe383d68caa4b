//! The boundary component: Bearer-header extraction, the service
//! configuration, and the composition of extraction, resolution and
//! validation.

use vstd::prelude::*;

use crate::errors::AuthError;
use crate::keys::KeyOriginM;
use crate::keys::RsaKey;
use crate::keys::key_from_pem;
use crate::keys::rsa_pem_ok;
use crate::token::key_id_model;
use crate::token::token_key_id;
use crate::validate::AuthUser;
use crate::validate::validate_model;
use crate::validate::validate_token;

verus! {

/// The character-sequence image of an optional header value.
pub open spec fn opt_view(h: Option<&str>) -> Option<Seq<char>> {
    match h {
        Some(s) => Some(s@),
        None => None,
    }
}

/// What Bearer extraction yields on a request's `authorization` header:
/// the token after the exact `Bearer ` prefix (case-sensitive, single
/// space); `MissingHeader` when no header came, `MalformedHeader` on any
/// other shape.
pub open spec fn bearer_model(h: Option<Seq<char>>) -> Result<Seq<char>, AuthError> {
    match h {
        None => Err(AuthError::MissingHeader),
        Some(s) => if s.len() >= 7 && s.take(7) == "Bearer "@ {
            Ok(s.skip(7))
        } else {
            Err(AuthError::MalformedHeader)
        },
    }
}

/// Extracts the Bearer token from the `authorization` header, if any.
pub fn bearer_token(header: Option<&str>) -> (r: Result<String, AuthError>)
    ensures
        match r {
            Ok(t) => bearer_model(opt_view(header)) == Ok::<Seq<char>, AuthError>(t@),
            Err(e) => bearer_model(opt_view(header)) == Err::<Seq<char>, AuthError>(e),
        },
{
    let h = match header {
        Some(h) => h,
        None => {
            return Err(AuthError::MissingHeader);
        },
    };
    let n = h.unicode_len();
    proof {
        reveal_strlit("Bearer ");
    }
    if n < 7 {
        return Err(AuthError::MalformedHeader);
    }
    let ok = h.get_char(0) == 'B' && h.get_char(1) == 'e' && h.get_char(2) == 'a' && h.get_char(3)
        == 'r' && h.get_char(4) == 'e' && h.get_char(5) == 'r' && h.get_char(6) == ' ';
    if !ok {
        proof {
            if h@.take(7) == "Bearer "@ {
                assert(h@[0] == h@.take(7)[0]);
                assert(h@[1] == h@.take(7)[1]);
                assert(h@[2] == h@.take(7)[2]);
                assert(h@[3] == h@.take(7)[3]);
                assert(h@[4] == h@.take(7)[4]);
                assert(h@[5] == h@.take(7)[5]);
                assert(h@[6] == h@.take(7)[6]);
                assert(false);
            }
        }
        return Err(AuthError::MalformedHeader);
    }
    let tok = h.substring_char(7, n);
    proof {
        assert(h@.take(7) =~= "Bearer "@);
        assert(h@.subrange(7, n as int) =~= h@.skip(7));
    }
    Ok(tok.to_owned())
}

/// The key source: discovery via JWKS, or one fixed key configured
/// directly — the legacy static mode, which bypasses the resolver.
pub enum KeySource {
    Discovery,
    Fixed(RsaKey),
}

/// The boundary's configuration, built once at startup and shared by every
/// request path: the expected issuer, the JWKS URL derived from it, and
/// the key source.
pub struct AuthConfig {
    pub issuer: String,
    pub jwks_url: String,
    pub source: KeySource,
}

/// Builds the configuration from the deployment's settings: the issuer
/// URL, and optionally a static PEM public key.  A missing issuer, or key
/// material that does not decode, is `ConfigurationMissing` — a deployment
/// defect, detected once; the caller keeps the failed outcome as permanent
/// rather than retrying per request.
pub fn build_config(issuer: Option<String>, static_pem: Option<String>) -> (r: Result<
    AuthConfig,
    AuthError,
>)
    ensures
        match r {
            Ok(c) => issuer matches Some(iss) && c.issuer@ == iss@ && c.jwks_url@ == iss@
                + "/.well-known/jwks.json"@ && (match static_pem {
                None => c.source is Discovery,
                Some(p) => rsa_pem_ok(p@) && (c.source matches KeySource::Fixed(k) && k@ == (
                KeyOriginM::Pem { text: p@ })),
            }),
            Err(e) => e == AuthError::ConfigurationMissing && (issuer is None || (
            static_pem matches Some(p) && !rsa_pem_ok(p@))),
        },
{
    let iss = match issuer {
        Some(s) => s,
        None => {
            return Err(AuthError::ConfigurationMissing);
        },
    };
    let url = iss.clone().concat("/.well-known/jwks.json");
    let source = match static_pem {
        None => KeySource::Discovery,
        Some(p) => match key_from_pem(p.as_str()) {
            Some(k) => KeySource::Fixed(k),
            None => {
                return Err(AuthError::ConfigurationMissing);
            },
        },
    };
    Ok(AuthConfig { issuer: iss, jwks_url: url, source })
}

/// What the boundary decides for a request once a key is at hand: Bearer
/// extraction, then validation.
pub open spec fn gate_model(
    h: Option<Seq<char>>,
    key: KeyOriginM,
    issuer: Seq<char>,
    now: int,
) -> Result<Seq<char>, AuthError> {
    match bearer_model(h) {
        Err(e) => Err(e),
        Ok(t) => validate_model(t, key, issuer, now),
    }
}

/// Authenticates a request against one known key — the whole boundary of the
/// static mode, and the validation tail of the discovery mode once the
/// resolver produced the key.
pub fn authenticate_with_key(
    header: Option<&str>,
    key: &RsaKey,
    expected_issuer: &str,
    now: i64,
) -> (r: Result<AuthUser, AuthError>)
    ensures
        match r {
            Ok(u) => gate_model(opt_view(header), key@, expected_issuer@, now as int) == Ok::<
                Seq<char>,
                AuthError,
            >(u.user_id@),
            Err(e) => gate_model(opt_view(header), key@, expected_issuer@, now as int) == Err::<
                Seq<char>,
                AuthError,
            >(e),
        },
{
    let token = match bearer_token(header) {
        Ok(t) => t,
        Err(e) => {
            return Err(e);
        },
    };
    validate_token(token.as_str(), key, expected_issuer, now)
}

/// What the pre-resolution phase of the boundary yields: the token and its
/// key id, or the rejection that ends the request before any resolution.
pub open spec fn gate_extract_model(h: Option<Seq<char>>) -> Result<
    (Seq<char>, Seq<char>),
    AuthError,
> {
    match bearer_model(h) {
        Err(e) => Err(e),
        Ok(t) => match key_id_model(t) {
            Err(e) => Err(e),
            Ok(kid) => Ok((t, kid)),
        },
    }
}

/// The part of the boundary that runs before any key resolution: Bearer
/// extraction and the unverified header read.  No resolver is consulted,
/// so a request rejected here causes no network access.
pub fn gate_extract(header: Option<&str>) -> (r: Result<(String, String), AuthError>)
    ensures
        match r {
            Ok(tk) => gate_extract_model(opt_view(header)) == Ok::<
                (Seq<char>, Seq<char>),
                AuthError,
            >((tk.0@, tk.1@)),
            Err(e) => gate_extract_model(opt_view(header)) == Err::<
                (Seq<char>, Seq<char>),
                AuthError,
            >(e),
        },
{
    let token = match bearer_token(header) {
        Ok(t) => t,
        Err(e) => {
            return Err(e);
        },
    };
    let kid = match token_key_id(token.as_str()) {
        Ok(k) => k,
        Err(e) => {
            return Err(e);
        },
    };
    Ok((token, kid))
}

/// A request without an `authorization` header is rejected as
/// `MissingHeader` before anything else — in particular before any key
/// resolution, hence without any network access.
pub proof fn lemma_missing_header_rejected()
    ensures
        gate_extract_model(None) == Err::<(Seq<char>, Seq<char>), AuthError>(
            AuthError::MissingHeader,
        ),
        forall|key: KeyOriginM, issuer: Seq<char>, now: int|
            #[trigger] gate_model(None, key, issuer, now) == Err::<Seq<char>, AuthError>(
                AuthError::MissingHeader,
            ),
{
}

} // verus!
