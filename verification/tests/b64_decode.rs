//! The base64url decoder against known vectors and against the base64
//! crate's url-safe unpadded engine.

use authgate::b64::b64url_decode_ascii;
use base64::Engine;
use base64::engine::general_purpose::URL_SAFE_NO_PAD;

#[test]
fn empty_text_decodes_to_no_bytes() {
    assert_eq!(b64url_decode_ascii(""), Some(Vec::new()));
}

#[test]
fn two_digit_group_decodes_one_byte() {
    assert_eq!(b64url_decode_ascii("QQ"), Some(vec![b'A']));
}

#[test]
fn three_digit_group_decodes_two_bytes() {
    assert_eq!(b64url_decode_ascii("QUI"), Some(vec![b'A', b'B']));
}

#[test]
fn full_group_decodes_three_bytes() {
    assert_eq!(b64url_decode_ascii("QUJD"), Some(vec![b'A', b'B', b'C']));
}

#[test]
fn url_safe_alphabet_digits_decode() {
    // 0xfb 0xff: encodes to "-_8" in the url-safe alphabet.
    assert_eq!(b64url_decode_ascii("-_8"), Some(vec![0xfb, 0xff]));
}

#[test]
fn length_one_mod_four_is_rejected() {
    assert_eq!(b64url_decode_ascii("Q"), None);
    assert_eq!(b64url_decode_ascii("QUJDQ"), None);
}

#[test]
fn padding_characters_are_rejected() {
    assert_eq!(b64url_decode_ascii("QQ=="), None);
}

#[test]
fn standard_alphabet_specials_are_rejected() {
    assert_eq!(b64url_decode_ascii("+/"), None);
}

#[test]
fn nonzero_trailing_bits_are_rejected() {
    // 'R' carries value 17; a trailing two-digit group must end in a
    // digit whose low four bits are zero.
    assert_eq!(b64url_decode_ascii("QR"), None);
}

#[test]
fn agrees_with_the_base64_crate_on_a_round_trip() {
    let data: Vec<u8> = (0u16..=255).map(|b| b as u8).collect();
    let text = URL_SAFE_NO_PAD.encode(&data);
    assert_eq!(b64url_decode_ascii(&text), Some(data));
}

#[test]
fn rejects_what_the_base64_crate_rejects() {
    for text in ["QR", "Q", "QQ==", "++", "~~", "QUJDQ"] {
        assert!(URL_SAFE_NO_PAD.decode(text).is_err());
        assert_eq!(b64url_decode_ascii(text), None);
    }
}
