//! The JSON document model: parsing, field lookup, claims extraction and
//! JWKS decoding on concrete documents.

use authgate::json::JsonDoc;
use authgate::json::JsonPrim;
use authgate::json::JsonTopVal;
use authgate::json::doc_field;
use authgate::json::parse_json_doc;
use authgate::keys::decode_jwks;
use authgate::validate::claims_from_doc;

fn parse(text: &str) -> Option<JsonDoc> {
    parse_json_doc(text.as_bytes())
}

#[test]
fn top_level_non_objects_do_not_parse() {
    assert!(parse("[1, 2]").is_none());
    assert!(parse("\"text\"").is_none());
    assert!(parse("not json at all").is_none());
}

#[test]
fn scalar_fields_come_back_typed() {
    let doc = parse(r#"{"a": 1, "b": "x", "c": true, "d": null}"#).unwrap();
    assert!(matches!(doc_field(&doc, "a"), Some(JsonTopVal::Prim(JsonPrim::Int(1)))));
    match doc_field(&doc, "b") {
        Some(JsonTopVal::Prim(JsonPrim::Text(s))) => assert_eq!(s, "x"),
        other => panic!("unexpected: {:?}", other),
    }
    assert!(matches!(doc_field(&doc, "c"), Some(JsonTopVal::Prim(JsonPrim::Bool(true)))));
    assert!(matches!(doc_field(&doc, "d"), Some(JsonTopVal::Prim(JsonPrim::Null))));
    assert!(doc_field(&doc, "e").is_none());
}

#[test]
fn numbers_outside_i64_are_opaque() {
    let doc = parse(r#"{"big": 18446744073709551615, "frac": 1.5}"#).unwrap();
    assert!(matches!(doc_field(&doc, "big"), Some(JsonTopVal::Prim(JsonPrim::Opaque))));
    assert!(matches!(doc_field(&doc, "frac"), Some(JsonTopVal::Prim(JsonPrim::Opaque))));
}

#[test]
fn full_claims_extract() {
    let doc = parse(
        r#"{"sub": "user-1", "iat": 100, "exp": 200, "iss": "https://issuer.example", "aud": "aud-1"}"#,
    )
    .unwrap();
    let c = claims_from_doc(&doc).unwrap();
    assert_eq!(c.sub, "user-1");
    assert_eq!(c.iat, 100);
    assert_eq!(c.exp, 200);
    assert_eq!(c.iss, "https://issuer.example");
    assert_eq!(c.aud.as_deref(), Some("aud-1"));
}

#[test]
fn aud_is_optional_and_null_counts_as_absent() {
    let doc = parse(r#"{"sub": "u", "iat": 1, "exp": 2, "iss": "i"}"#).unwrap();
    assert_eq!(claims_from_doc(&doc).unwrap().aud, None);
    let doc = parse(r#"{"sub": "u", "iat": 1, "exp": 2, "iss": "i", "aud": null}"#).unwrap();
    assert_eq!(claims_from_doc(&doc).unwrap().aud, None);
}

#[test]
fn missing_or_mistyped_required_claims_fail() {
    for text in [
        r#"{"iat": 1, "exp": 2, "iss": "i"}"#,
        r#"{"sub": "u", "exp": 2, "iss": "i"}"#,
        r#"{"sub": "u", "iat": 1, "iss": "i"}"#,
        r#"{"sub": "u", "iat": 1, "exp": 2}"#,
        r#"{"sub": 7, "iat": 1, "exp": 2, "iss": "i"}"#,
        r#"{"sub": "u", "iat": 1, "exp": 2.5, "iss": "i"}"#,
        r#"{"sub": "u", "iat": 1, "exp": 2, "iss": "i", "aud": 9}"#,
    ] {
        let doc = parse(text).unwrap();
        assert!(claims_from_doc(&doc).is_none(), "accepted: {}", text);
    }
}

#[test]
fn jwks_needs_an_object_with_a_keys_array() {
    assert!(decode_jwks(b"[]").is_none());
    assert!(decode_jwks(b"{}").is_none());
    assert!(decode_jwks(br#"{"keys": 7}"#).is_none());
    assert!(decode_jwks(b"{ not json").is_none());
}

#[test]
fn jwks_skips_unusable_entries_individually() {
    // A non-object element, a non-RSA entry, an entry with a missing
    // field, one with undecodable components, and one usable entry.
    let body = br#"{"keys": [
        17,
        {"kid": "ec1", "kty": "EC", "n": "AQAB", "e": "AQAB"},
        {"kid": "short", "kty": "RSA", "n": "AQAB"},
        {"kid": "bad", "kty": "RSA", "n": "%%%", "e": "AQAB"},
        {"kid": "good", "kty": "RSA", "n": "AQAB", "e": "AQAB"}
    ]}"#;
    let keys = decode_jwks(body).unwrap();
    assert_eq!(keys.len(), 1);
    assert_eq!(keys[0].kid, "good");
}

#[test]
fn jwks_empty_array_yields_no_keys() {
    let keys = decode_jwks(br#"{"keys": []}"#).unwrap();
    assert_eq!(keys.len(), 0);
}
