//! The compute side of the service's health and debug answers; reading
//! the process environment and serving HTTP stay with the caller.

use vstd::prelude::*;

verus! {

/// The health answer: a status word and the service version.
#[derive(Debug, Clone)]
pub struct HealthResponse {
    pub status: String,
    pub version: String,
}

/// The debug answer: whether a static PEM key is configured and how long
/// it is, and the configured issuer URL.
#[derive(Debug, Clone)]
pub struct DebugResponse {
    pub pem_key_set: bool,
    pub pem_key_len: usize,
    pub issuer_url: Option<String>,
}

/// The health answer for a live service of the given version.
pub fn health_response(version: String) -> (r: HealthResponse)
    ensures
        r.status@ == "ok"@,
        r.version@ == version@,
{
    HealthResponse { status: "ok".to_owned(), version }
}

/// The debug answer, computed from the deployment's settings as handed
/// in: set exactly when a non-empty PEM is configured, with its length.
pub fn debug_response(pem: Option<String>, issuer_url: Option<String>) -> (r: DebugResponse)
    ensures
        r.pem_key_set == (match pem {
            Some(p) => p@.len() > 0,
            None => false,
        }),
        r.pem_key_len == (match pem {
            Some(p) => p@.len(),
            None => 0nat,
        }),
        r.issuer_url == issuer_url,
{
    match pem {
        Some(p) => {
            let l = p.as_str().unicode_len();
            DebugResponse { pem_key_set: l > 0, pem_key_len: l, issuer_url }
        },
        None => DebugResponse { pem_key_set: false, pem_key_len: 0, issuer_url },
    }
}

} // verus!
