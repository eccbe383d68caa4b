//! The rejection taxonomy of the authentication boundary.

use vstd::prelude::*;

verus! {

/// Why a request failed to authenticate.
///
/// The first eight kinds are client-attributable and surface as an
/// "unauthorized" signal; `KeyFetchFailed` and `ConfigurationMissing` are
/// operator-attributable and surface as a distinct "server error" signal, so
/// that infrastructure trouble can be alerted on separately from routine
/// unauthorized traffic.
#[derive(Debug, Clone)]
pub enum AuthError {
    /// No `authorization` header was present.
    MissingHeader,
    /// The `authorization` header did not carry the exact `Bearer ` prefix.
    MalformedHeader,
    /// The token is not three base64url sections separated by dots.
    MalformedToken,
    /// The token's key id is absent, or no published key carries it.
    UnknownKeyId,
    /// The RS256 signature did not verify under the resolved key.
    SignatureInvalid,
    /// The signed payload is not a JSON object with the required claims.
    ClaimsMalformed,
    /// The token's expiry lies in the past (beyond the clock-skew allowance).
    Expired,
    /// The token's issuer differs from the configured expected issuer.
    IssuerMismatch,
    /// The JWKS document could not be fetched or was structurally invalid;
    /// the payload names the underlying cause.
    KeyFetchFailed(String),
    /// The deployment lacks an issuer URL or carries unusable key material.
    ConfigurationMissing,
}

impl AuthError {
    /// Client-attributable rejections answer with an unauthorized status;
    /// the others indicate an operator problem.
    pub open spec fn is_client_error(&self) -> bool {
        match self {
            AuthError::KeyFetchFailed(_) => false,
            AuthError::ConfigurationMissing => false,
            _ => true,
        }
    }

    /// The stable protocol-level status for this rejection: 401 for
    /// client-attributable failures, 500 for operator-attributable ones.
    pub fn status_code(&self) -> (code: u16)
        ensures
            code == if self.is_client_error() {
                401u16
            } else {
                500u16
            },
    {
        match self {
            AuthError::KeyFetchFailed(_) => 500,
            AuthError::ConfigurationMissing => 500,
            _ => 401,
        }
    }
}

} // verus!
