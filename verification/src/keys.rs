//! RSA public keys for RS256 verification, and the decoding of a fetched
//! JWKS document into such keys.
//!
//! A [`RsaKey`] couples the plain key material (base64url components, or
//! PEM text) with the decoding key that jsonwebtoken built from exactly
//! that material; the two constructors are the only way to obtain one.

use vstd::prelude::*;

use crate::b64::spec_b64url_decode;
use crate::json::JsonElem;
use crate::json::JsonElemM;
use crate::json::JsonFieldM;
use crate::json::JsonPrim;
use crate::json::JsonPrimM;
use crate::json::JsonTopVal;
use crate::json::JsonTopValM;
use crate::json::doc_field;
use crate::json::doc_lookup;
use crate::json::entry_field;
use crate::json::entry_lookup;
use crate::json::json_doc_of;
use crate::json::parse_json_doc;
use crate::json::string_eq_str;

verus! {

/// jsonwebtoken's decoding key, declared so the library can carry one
/// alongside the plain material it was built from.
#[verifier::external_type_specification]
#[verifier::external_body]
pub struct ExDecodingKey(jsonwebtoken::DecodingKey);

/// Relies on `jsonwebtoken::DecodingKey`'s `Clone`; nothing is stated of
/// the copy, since the type is opaque here.
pub assume_specification[ <jsonwebtoken::DecodingKey as Clone>::clone ](
    k: &jsonwebtoken::DecodingKey,
) -> jsonwebtoken::DecodingKey;

/// The plain material an RSA public key was built from.
#[derive(Debug, Clone)]
pub enum KeyOrigin {
    /// base64url-encoded modulus and exponent, as a JWKS entry carries them.
    Components { n: String, e: String },
    /// PEM text, as the legacy static-key configuration carries it.
    Pem { text: String },
}

/// The mathematical image of a [`KeyOrigin`].
pub enum KeyOriginM {
    Components { n: Seq<char>, e: Seq<char> },
    Pem { text: Seq<char> },
}

impl View for KeyOrigin {
    type V = KeyOriginM;

    open spec fn view(&self) -> KeyOriginM {
        match self {
            KeyOrigin::Components { n, e } => KeyOriginM::Components { n: n@, e: e@ },
            KeyOrigin::Pem { text } => KeyOriginM::Pem { text: text@ },
        }
    }
}

/// An RSA public key usable for RS256 signature verification.  The view of
/// a key is the plain material it was built from; the embedded decoding key
/// always corresponds to that material, because the two trusted
/// constructors below are the only places that build one.
#[derive(Debug, Clone)]
pub struct RsaKey {
    origin: KeyOrigin,
    key: jsonwebtoken::DecodingKey,
}

impl View for RsaKey {
    type V = KeyOriginM;

    closed spec fn view(&self) -> KeyOriginM {
        self.origin@
    }
}

/// Whether a JWKS entry's components form a decodable key: both must be
/// canonical unpadded base64url.
pub open spec fn rsa_components_ok(n: Seq<char>, e: Seq<char>) -> bool {
    spec_b64url_decode(n) is Some && spec_b64url_decode(e) is Some
}

/// Whether `DecodingKey::from_rsa_pem` accepts this PEM text; acceptance
/// depends on the text alone.
pub uninterp spec fn rsa_pem_ok(pem: Seq<char>) -> bool;

/// Whether the RS256 signature given as base64url text verifies over the
/// message under the RSA key with these base64url components.  The outcome
/// depends on the three texts and the message alone.
pub uninterp spec fn rs256_verifies(
    msg: Seq<u8>,
    sig: Seq<char>,
    n: Seq<char>,
    e: Seq<char>,
) -> bool;

/// Whether the RS256 signature given as base64url text verifies over the
/// message under the RSA key held in this PEM text.  The outcome depends on
/// the two texts and the message alone.
pub uninterp spec fn rs256_pem_verifies(msg: Seq<u8>, sig: Seq<char>, pem: Seq<char>) -> bool;

/// Whether a signature verifies under a key, by the key's material.
pub open spec fn key_verifies(msg: Seq<u8>, sig: Seq<char>, k: KeyOriginM) -> bool {
    match k {
        KeyOriginM::Components { n, e } => rs256_verifies(msg, sig, n, e),
        KeyOriginM::Pem { text } => rs256_pem_verifies(msg, sig, text),
    }
}

/// Relies on `jsonwebtoken::DecodingKey::from_rsa_components`: it succeeds
/// exactly when both components decode as canonical unpadded base64url, and
/// the built key is a pure function of them.
#[verifier::external_body]
pub fn key_from_components(n: String, e: String) -> (r: Option<RsaKey>)
    ensures
        r is Some <==> rsa_components_ok(n@, e@),
        r matches Some(k) ==> k@ == (KeyOriginM::Components { n: n@, e: e@ }),
{
    let key = jsonwebtoken::DecodingKey::from_rsa_components(&n, &e).ok()?;
    Some(RsaKey { origin: KeyOrigin::Components { n, e }, key })
}

/// Relies on `jsonwebtoken::DecodingKey::from_rsa_pem`: acceptance depends
/// on the PEM text alone, and the built key is a pure function of it.
#[verifier::external_body]
pub fn key_from_pem(pem: &str) -> (r: Option<RsaKey>)
    ensures
        r is Some <==> rsa_pem_ok(pem@),
        r matches Some(k) ==> k@ == (KeyOriginM::Pem { text: pem@ }),
{
    let key = jsonwebtoken::DecodingKey::from_rsa_pem(pem.as_bytes()).ok()?;
    Some(RsaKey { origin: KeyOrigin::Pem { text: pem.to_owned() }, key })
}

/// Relies on `jsonwebtoken::crypto::verify` with `Algorithm::RS256`: the
/// outcome depends on message, signature text and key material alone; a
/// signature that is not valid base64url, or material that does not form an
/// RSA public key, verifies as false.
#[verifier::external_body]
pub fn rs256_verify(msg: &[u8], sig: &str, key: &RsaKey) -> (r: bool)
    ensures
        r == (match key@ {
            KeyOriginM::Components { n, e } => rs256_verifies(msg@, sig@, n, e),
            KeyOriginM::Pem { text } => rs256_pem_verifies(msg@, sig@, text),
        }),
        r == key_verifies(msg@, sig@, key@),
{
    jsonwebtoken::crypto::verify(sig, msg, &key.key, jsonwebtoken::Algorithm::RS256).unwrap_or(
        false,
    )
}

/// Relies on the derived `Clone` of [`RsaKey`]: it copies the origin and
/// the embedded decoding key together.
#[verifier::external_body]
pub fn clone_key(k: &RsaKey) -> (r: RsaKey)
    ensures
        r@ == k@,
{
    k.clone()
}

/// One discovered key, ready for the key store.
pub struct KeyEntry {
    pub kid: String,
    pub key: RsaKey,
}

impl View for KeyEntry {
    type V = (Seq<char>, KeyOriginM);

    open spec fn view(&self) -> (Seq<char>, KeyOriginM) {
        (self.kid@, self.key@)
    }
}

/// The pairwise image of a sequence of discovered keys.
pub open spec fn entries_view(s: Seq<KeyEntry>) -> Seq<(Seq<char>, KeyOriginM)> {
    Seq::new(s.len(), |i: int| s[i]@)
}

/// The identifying fields of one JWKS entry, when it is an RSA entry with
/// string `kid`, `kty`, `n` and `e` fields: `(kid, n, e)`.
pub open spec fn jwk_of_entry(fields: Seq<JsonFieldM>) -> Option<(Seq<char>, Seq<char>, Seq<char>)> {
    match (
        entry_lookup(fields, "kid"@),
        entry_lookup(fields, "kty"@),
        entry_lookup(fields, "n"@),
        entry_lookup(fields, "e"@),
    ) {
        (
            Some(JsonPrimM::Text(kid)),
            Some(JsonPrimM::Text(kty)),
            Some(JsonPrimM::Text(n)),
            Some(JsonPrimM::Text(e)),
        ) => if kty == "RSA"@ {
            Some((kid, n, e))
        } else {
            None
        },
        _ => None,
    }
}

/// The keys a JWKS `keys` array yields: every element that is an object
/// with the RSA fields and decodable components, in order; all other
/// elements are skipped individually.
pub open spec fn jwks_decoded(elems: Seq<JsonElemM>) -> Seq<(Seq<char>, KeyOriginM)>
    decreases elems.len(),
{
    if elems.len() == 0 {
        Seq::empty()
    } else {
        let rest = jwks_decoded(elems.skip(1));
        match elems[0] {
            JsonElemM::Entry(fields) => match jwk_of_entry(fields) {
                Some(triple) => if rsa_components_ok(triple.1, triple.2) {
                    seq![(triple.0, KeyOriginM::Components { n: triple.1, e: triple.2 })] + rest
                } else {
                    rest
                },
                None => rest,
            },
            _ => rest,
        }
    }
}

/// The `keys` array of a JWKS document, or `None` when the document's top
/// level is not an object carrying one.
pub open spec fn jwks_keys_of(bytes: Seq<u8>) -> Option<Seq<JsonElemM>> {
    match json_doc_of(bytes) {
        Some(d) => match doc_lookup(d.fields, "keys"@) {
            Some(JsonTopValM::Arr(elems)) => Some(elems),
            _ => None,
        },
        None => None,
    }
}

/// Decodes one JWKS array element, skipping anything but a well-formed RSA
/// entry with decodable components.
fn decode_jwk_elem(elem: &JsonElem) -> (r: Option<KeyEntry>)
    ensures
        match r {
            Some(ke) => elem@ matches JsonElemM::Entry(fields) && jwk_of_entry(fields) matches Some(
                triple,
            ) && rsa_components_ok(triple.1, triple.2) && ke@ == (
                triple.0,
                KeyOriginM::Components { n: triple.1, e: triple.2 },
            ),
            None => match elem@ {
                JsonElemM::Entry(fields) => match jwk_of_entry(fields) {
                    Some(triple) => !rsa_components_ok(triple.1, triple.2),
                    None => true,
                },
                _ => true,
            },
        },
{
    let fields = match elem {
        JsonElem::Entry(fields) => fields,
        _ => {
            return None;
        },
    };
    let kid = match entry_field(fields, "kid") {
        Some(JsonPrim::Text(s)) => s,
        _ => {
            return None;
        },
    };
    let kty = match entry_field(fields, "kty") {
        Some(JsonPrim::Text(s)) => s,
        _ => {
            return None;
        },
    };
    let n = match entry_field(fields, "n") {
        Some(JsonPrim::Text(s)) => s,
        _ => {
            return None;
        },
    };
    let e = match entry_field(fields, "e") {
        Some(JsonPrim::Text(s)) => s,
        _ => {
            return None;
        },
    };
    if !string_eq_str(kty, "RSA") {
        return None;
    }
    match key_from_components(n.clone(), e.clone()) {
        Some(key) => Some(KeyEntry { kid: kid.clone(), key }),
        None => None,
    }
}

/// Decodes a fetched JWKS document into usable keys.  Entries that are not
/// RSA entries, or whose components do not decode, are skipped one by one;
/// `None` comes only when the document itself is not an object with a
/// `keys` array.
pub fn decode_jwks(bytes: &[u8]) -> (r: Option<Vec<KeyEntry>>)
    ensures
        match r {
            Some(v) => jwks_keys_of(bytes@) matches Some(elems) && entries_view(v@)
                == jwks_decoded(elems),
            None => jwks_keys_of(bytes@) is None,
        },
{
    let doc = match parse_json_doc(bytes) {
        Some(d) => d,
        None => {
            return None;
        },
    };
    let arr = match doc_field(&doc, "keys") {
        Some(JsonTopVal::Arr(a)) => a,
        _ => {
            return None;
        },
    };
    let ghost elems: Seq<JsonElemM> = Seq::new(arr@.len(), |i: int| arr@[i]@);
    let n = arr.len();
    let mut out: Vec<KeyEntry> = Vec::new();
    let mut i: usize = 0;
    proof {
        assert(elems.skip(0) =~= elems);
        assert(entries_view(out@) =~= Seq::<(Seq<char>, KeyOriginM)>::empty());
        assert(entries_view(out@) + jwks_decoded(elems) =~= jwks_decoded(elems));
    }
    while i < n
        invariant
            n == arr@.len(),
            i <= n,
            elems == Seq::new(arr@.len(), |j: int| arr@[j]@),
            jwks_decoded(elems) == entries_view(out@) + jwks_decoded(elems.skip(i as int)),
        decreases n - i,
    {
        let ghost tail = elems.skip(i as int);
        proof {
            assert(tail[0] == elems[i as int]);
            assert(elems[i as int] == arr@[i as int]@);
            assert(tail.skip(1) =~= elems.skip(i + 1));
        }
        let ghost out0 = out@;
        match decode_jwk_elem(&arr[i]) {
            Some(ke) => {
                let ghost kem = ke@;
                out.push(ke);
                proof {
                    assert(entries_view(out@) =~= entries_view(out0) + seq![kem]);
                    assert((entries_view(out0) + seq![kem]) + jwks_decoded(elems.skip(i + 1))
                        =~= entries_view(out0) + (seq![kem] + jwks_decoded(elems.skip(i + 1))));
                }
            },
            None => {},
        }
        i = i + 1;
    }
    proof {
        assert(elems.skip(i as int).len() == 0);
        assert(entries_view(out@) + Seq::<(Seq<char>, KeyOriginM)>::empty() =~= entries_view(
            out@,
        ));
    }
    Some(out)
}

} // verus!
