//! End-to-end token validation with real RS256 keys: a fixed test key
//! pair signs tokens, its public half is published through a JWKS
//! document, and the boundary validates against it.

use authgate::errors::AuthError;
use authgate::gate::KeySource;
use authgate::gate::authenticate_with_key;
use authgate::gate::build_config;
use authgate::keys::RsaKey;
use authgate::keys::decode_jwks;
use authgate::token::token_key_id;
use authgate::validate::validate_token;
use base64::Engine;
use base64::engine::general_purpose::URL_SAFE_NO_PAD;
use jsonwebtoken::Algorithm;
use jsonwebtoken::EncodingKey;
use rsa::BigUint;
use rsa::RsaPrivateKey;
use rsa::pkcs1::EncodeRsaPrivateKey;
use rsa::pkcs1::EncodeRsaPublicKey;
use rsa::pkcs1::LineEnding;
use rsa::traits::PublicKeyParts;

const K1_N: &str = "bbfed8167aaa36d7566b76504d94cdedf2b2c374411006dab6e9c3389cbeb467270ec103b6c641d8755183aa87168f92a6141e50df1e03374f8f90d2ababd94a2e9b2520642083e7e8ee07ac08e22a1da5e6ca5b03925aa1dffee610b9f34111d3f84ded8eff77733f396daa2d6cdc80b001cf987a0cb7c1da427d60baa71289e35ad7be076ddb87413b2bb919441393e8e8bfeabd0eaeda9cb3efe1212ab45db9823ea78e4f970ae5e52cd522e7b4a9dd462655740a2dfddfd9b438e1b961bacff3f2a42d0c256a58967865194548d24c9f166a2e3207b4c34fe1abfb9ffdab4991edfdda099f46894e5ef575b7a8ba110d1f6c5cdc519763d0dd9d395061c3";
const K1_D: &str = "398cd1dccbcf58bb8216a2a101a6f8858bc302c78f75570bd46bea59e5ce118ef46b7555ec397405ce205694b907048ba9b0c5f90edc72b29776052920e99a3ab5dac3ba4f3c8ef4cb1f371508a127b06ccda28bcb239e002900b0b055246cfa86afe037458bda26db277af55a3395ab057680751683d72b0e64455a7bb952988225c1d76507805e80c974ab52686978e9293a7df0391b0df0ad4f6189ab749f0e6e7a0a9bbbded26fb203859728988ae0b209084bc7cd7178cf713a6999ec7bec3a599262ae21ea0841aa6ca3d3d42554c57c6d13098029d616d55c55ae7b9d64ea3e895c83103ee6da7ad798f32b271860a4aed39565a1492b61039aa5f195";
const K1_P: &str = "e48d6aa0202e313ee04b61694dca4cc046b519bf3150c2f4fa5eecdd3f0e0a75bea0c53f96b9f8ac9ff903ed3edc5ccbeb026baee64c42e61770fb57e48bef4c8a65d256fa6290bce2dc5b106ecfde86311dfd14d7e2166d67614141bf67d9e155b63f416a3800cfbd4b178ce1ca6dd0fcdab9941e26cc322cbdd535d530475f";
const K1_Q: &str = "d2928d191eb2face312d1243331901629a4b8a5d18d962545b6d6062087e980c587eb7b4d3005e7e5871c7f25a0f716b6206755d82bf6d7405c60af9150f68983b0cd49479058287d3fd6a60fb87cf2d42c9e63a7074f1bd7d36fa27a078b70ad31d27c6fb7f9cde9625bf77b04031f4b3f69daa0cc69dee463167ed2747341d";

const K2_N: &str = "b25edce9f3d702bf0d501364a94b5b7d31f2a89bcf5c8d01c0da5e3bbe2bab6e12e0c21ba6d9f2a083c70d21b1efff3935837ddd0352728c672b31ab68130df4922a5bb07baa2a1b599e8b04264aa2ada2c05e2cb65e195d743caefc15439537822b92b31f8a40d4591f1d38d23687ee6ab3ff461822abdb36d520a3ea89dd9c61aaa1163bb841f2558714f886c26383a90dc0bcb98acfed37d40770c4790dda6aaa60d11b6bf8f3957d59eb1a4ed82f35d40ec56b829473f02a526432c49bc1f7ccaf4ae57bd8ad546a0e7d0daf3ea1ee4f0286c23e9e0e11af7634d61d8f77ef26f44afc6c4750c5e724a3978671174667fa26feab23cc679b636135f52b89";
const K2_D: &str = "56b08326933376eabac225c2c102d672b8d14a3ffb9e6c0ba39a9dbce4769de92ff49b724bfbd60f4c2c7445e1909656cc1add938a574a43d1aa6d07f4db79e759188c1a7067e9f203f2e9767953c1cfa8ef5c75d7a6512699e51a587acf2f58dc8367d775a7404dd408aaafa07f0f3e810e7d2d2872c55a93c22e8c6be358582669db77cea55f479cc21c59a783ebb31dec838d121381c5980f79a35cdf4e4ea2df7096986fde7dcd5089a49299958ff6628fbc2b0a093166e2f1842627b84f2be74580b31c2aebc3689af370705a7efabfe624645b70abf23dc1a210d8f85f26576ec17e39e3f0ea02dac4f9363d3ec8227c568b037eccd5642e44b89f9d2f";
const K2_P: &str = "d73d3136e63d69794dc44066595dbd7066da293a8bd782543abc5528bf3455ce787fa5cead4b3b21216dd4ac463c69c8f644e3e5be6bbf8c6892d67fee71583d98c0844a6ac0a11f9ae190187939d397af3567221a8e7ace204be62476d8e2057d6cb2b3aa90510b28dfea0dc47d3661049eced35c6fad1ed47349be730671e3";
const K2_Q: &str = "d42648a41a24a046af33467a3c3bc1db18d417c563afb212314421074fecf029de0c87da100a200748b98cc47774fab1afd0e541bfc218b94010a6a951e9d195d18c1e55d7b84b9230da18f8494789a8d205d71368f658e75727d290e488cfdc9e87e3c3a7553303efdedaf15a6f477db72e32c3d5e96b9ba7757010cf1b38a3";

const ISSUER: &str = "https://issuer.example";
const NOW: i64 = 1_700_000_100;

fn big(hex: &str) -> BigUint {
    BigUint::parse_bytes(hex.as_bytes(), 16).unwrap()
}

fn key1() -> RsaPrivateKey {
    RsaPrivateKey::from_components(
        big(K1_N),
        BigUint::from(65537u32),
        big(K1_D),
        vec![big(K1_P), big(K1_Q)],
    )
    .unwrap()
}

fn key2() -> RsaPrivateKey {
    RsaPrivateKey::from_components(
        big(K2_N),
        BigUint::from(65537u32),
        big(K2_D),
        vec![big(K2_P), big(K2_Q)],
    )
    .unwrap()
}

fn b64url(data: &[u8]) -> String {
    URL_SAFE_NO_PAD.encode(data)
}

fn modulus_b64(key: &RsaPrivateKey) -> String {
    b64url(&key.n().to_bytes_be())
}

fn sign_token(header: &str, payload: &str, key: &RsaPrivateKey) -> String {
    let der = key.to_pkcs1_der().unwrap();
    let enc = EncodingKey::from_rsa_der(der.as_bytes());
    let msg = format!("{}.{}", b64url(header.as_bytes()), b64url(payload.as_bytes()));
    let sig = jsonwebtoken::crypto::sign(msg.as_bytes(), &enc, Algorithm::RS256).unwrap();
    format!("{}.{}", msg, sig)
}

fn jwks_body(kid: &str, key: &RsaPrivateKey) -> String {
    format!(
        r#"{{"keys": [{{"kid": "{}", "kty": "RSA", "n": "{}", "e": "AQAB"}}]}}"#,
        kid,
        modulus_b64(key)
    )
}

fn published_key(kid: &str, key: &RsaPrivateKey) -> RsaKey {
    let body = jwks_body(kid, key);
    let mut keys = decode_jwks(body.as_bytes()).unwrap();
    assert_eq!(keys.len(), 1);
    assert_eq!(keys[0].kid, kid);
    keys.remove(0).key
}

fn good_payload() -> String {
    format!(
        r#"{{"sub": "user-42", "iat": 1700000000, "exp": 4000000000, "iss": "{}"}}"#,
        ISSUER
    )
}

const RS256_K1_HEADER: &str = r#"{"alg": "RS256", "kid": "k1"}"#;

#[test]
fn end_to_end_published_key_validates_the_signed_token() {
    // JWKS entry {kid: "k1", kty: "RSA", n: <modulus>, e: "AQAB"}; token
    // signed with the matching private key carries sub "user-42".
    let k = key1();
    let pk = published_key("k1", &k);
    let token = sign_token(RS256_K1_HEADER, &good_payload(), &k);
    assert_eq!(token_key_id(&token).unwrap(), "k1");
    let user = validate_token(&token, &pk, ISSUER, NOW).unwrap();
    assert_eq!(user.user_id, "user-42");
}

#[test]
fn gate_accepts_a_bearer_request_end_to_end() {
    let k = key1();
    let pk = published_key("k1", &k);
    let token = sign_token(RS256_K1_HEADER, &good_payload(), &k);
    let header = format!("Bearer {}", token);
    let user = authenticate_with_key(Some(&header), &pk, ISSUER, NOW).unwrap();
    assert_eq!(user.user_id, "user-42");
}

#[test]
fn expired_token_fails_as_expired_despite_a_valid_signature() {
    let k = key1();
    let pk = published_key("k1", &k);
    let payload = format!(
        r#"{{"sub": "user-42", "iat": 1600000000, "exp": 1600000001, "iss": "{}"}}"#,
        ISSUER
    );
    let token = sign_token(RS256_K1_HEADER, &payload, &k);
    let r = validate_token(&token, &pk, ISSUER, NOW);
    assert!(matches!(r, Err(AuthError::Expired)));
}

#[test]
fn expiry_honours_the_clock_skew_allowance_exactly() {
    let k = key1();
    let pk = published_key("k1", &k);
    let exp: i64 = 1_700_000_000;
    let payload = format!(
        r#"{{"sub": "u", "iat": 1, "exp": {}, "iss": "{}"}}"#,
        exp, ISSUER
    );
    let token = sign_token(RS256_K1_HEADER, &payload, &k);
    // Still taken 59 seconds past expiry, rejected at 60.
    assert!(validate_token(&token, &pk, ISSUER, exp + 59).is_ok());
    assert!(matches!(validate_token(&token, &pk, ISSUER, exp + 60), Err(AuthError::Expired)));
}

#[test]
fn wrong_key_fails_as_signature_invalid() {
    let k1 = key1();
    let k2 = key2();
    let pk = published_key("k1", &k1);
    let token = sign_token(RS256_K1_HEADER, &good_payload(), &k2);
    let r = validate_token(&token, &pk, ISSUER, NOW);
    assert!(matches!(r, Err(AuthError::SignatureInvalid)));
}

#[test]
fn tampered_payload_fails_as_signature_invalid() {
    let k = key1();
    let pk = published_key("k1", &k);
    let token = sign_token(RS256_K1_HEADER, &good_payload(), &k);
    let sections: Vec<&str> = token.split('.').collect();
    let forged_payload = good_payload().replace("user-42", "user-43");
    let tampered = format!(
        "{}.{}.{}",
        sections[0],
        b64url(forged_payload.as_bytes()),
        sections[2]
    );
    let r = validate_token(&tampered, &pk, ISSUER, NOW);
    assert!(matches!(r, Err(AuthError::SignatureInvalid)));
}

#[test]
fn issuer_mismatch_fails_after_signature_and_expiry() {
    let k = key1();
    let pk = published_key("k1", &k);
    let payload = format!(
        r#"{{"sub": "u", "iat": 1700000000, "exp": 4000000000, "iss": "{}"}}"#,
        "https://other.example"
    );
    let token = sign_token(RS256_K1_HEADER, &payload, &k);
    let r = validate_token(&token, &pk, ISSUER, NOW);
    assert!(matches!(r, Err(AuthError::IssuerMismatch)));
}

#[test]
fn missing_required_claims_fail_as_claims_malformed() {
    let k = key1();
    let pk = published_key("k1", &k);
    let payload = format!(r#"{{"iat": 1700000000, "exp": 4000000000, "iss": "{}"}}"#, ISSUER);
    let token = sign_token(RS256_K1_HEADER, &payload, &k);
    let r = validate_token(&token, &pk, ISSUER, NOW);
    assert!(matches!(r, Err(AuthError::ClaimsMalformed)));
}

#[test]
fn audience_is_carried_but_never_validated() {
    // Deliberate policy: any audience — or none — passes.
    let k = key1();
    let pk = published_key("k1", &k);
    let payload = format!(
        r#"{{"sub": "u", "iat": 1, "exp": 4000000000, "iss": "{}", "aud": "someone-else"}}"#,
        ISSUER
    );
    let token = sign_token(RS256_K1_HEADER, &payload, &k);
    assert!(validate_token(&token, &pk, ISSUER, NOW).is_ok());
}

#[test]
fn structural_failures_are_malformed_token() {
    let k = key1();
    let pk = published_key("k1", &k);
    for bad in ["", "abc", "a.b", "a.b.c.d", "!!!.AAAA.AAAA", "AAAA.!!!.AAAA"] {
        let r = validate_token(bad, &pk, ISSUER, NOW);
        assert!(matches!(r, Err(AuthError::MalformedToken)), "accepted: {:?}", bad);
    }
}

#[test]
fn header_without_kid_is_unknown_key_id_before_any_resolution() {
    let token = sign_token(r#"{"alg": "RS256"}"#, &good_payload(), &key1());
    assert!(matches!(token_key_id(&token), Err(AuthError::UnknownKeyId)));
}

#[test]
fn non_rs256_algorithms_are_refused_at_the_header_read() {
    for header in [r#"{"alg": "RS512", "kid": "k1"}"#, r#"{"alg": "none", "kid": "k1"}"#, r#"{"kid": "k1"}"#]
    {
        let token = sign_token(header, &good_payload(), &key1());
        assert!(matches!(token_key_id(&token), Err(AuthError::MalformedToken)));
    }
}

#[test]
fn static_pem_mode_validates_against_the_configured_key() {
    let k = key1();
    let pem = k.to_public_key().to_pkcs1_pem(LineEnding::LF).unwrap();
    let cfg = build_config(Some(String::from(ISSUER)), Some(pem)).unwrap();
    let fixed = match cfg.source {
        KeySource::Fixed(key) => key,
        KeySource::Discovery => panic!("expected the static mode"),
    };
    let token = sign_token(RS256_K1_HEADER, &good_payload(), &k);
    let header = format!("Bearer {}", token);
    let user = authenticate_with_key(Some(&header), &fixed, ISSUER, NOW).unwrap();
    assert_eq!(user.user_id, "user-42");
    // The wrong signer still fails under the static key.
    let forged = sign_token(RS256_K1_HEADER, &good_payload(), &key2());
    let header = format!("Bearer {}", forged);
    let r = authenticate_with_key(Some(&header), &fixed, ISSUER, NOW);
    assert!(matches!(r, Err(AuthError::SignatureInvalid)));
}
