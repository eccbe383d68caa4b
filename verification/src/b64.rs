//! Unpadded base64url decoding, as JWT compact serialization uses it.
//!
//! The decoder is strict: padding characters are rejected, a length of
//! 1 modulo 4 is rejected, and the unused low bits of a trailing group must
//! be zero, so every byte sequence has exactly one encoding.

use vstd::prelude::*;
use vstd::utf8::is_ascii_chars;

verus! {

/// The value of one base64url digit given as a character code,
/// `None` outside the alphabet (`A-Z`, `a-z`, `0-9`, `-`, `_`).
pub open spec fn b64_val_of(u: int) -> Option<int> {
    if 65 <= u <= 90 {
        Some(u - 65)
    } else if 97 <= u <= 122 {
        Some(u - 97 + 26)
    } else if 48 <= u <= 57 {
        Some(u - 48 + 52)
    } else if u == 45 {
        Some(62)
    } else if u == 95 {
        Some(63)
    } else {
        None
    }
}

/// The value of one base64url digit character.
pub open spec fn b64_char_val(c: char) -> Option<int> {
    b64_val_of(c as int)
}

/// One byte from a trailing group of two digits; the four unused low bits
/// of the second digit must be zero.
pub open spec fn b64_group2(a: int, b: int) -> Option<Seq<u8>> {
    if b % 16 == 0 {
        Some(seq![(a * 4 + b / 16) as u8])
    } else {
        None
    }
}

/// Two bytes from a trailing group of three digits; the two unused low bits
/// of the third digit must be zero.
pub open spec fn b64_group3(a: int, b: int, c: int) -> Option<Seq<u8>> {
    if c % 4 == 0 {
        Some(seq![(a * 4 + b / 16) as u8, ((b % 16) * 16 + c / 4) as u8])
    } else {
        None
    }
}

/// Three bytes from a full group of four digits.
pub open spec fn b64_group4(a: int, b: int, c: int, d: int) -> Seq<u8> {
    seq![(a * 4 + b / 16) as u8, ((b % 16) * 16 + c / 4) as u8, ((c % 4) * 64 + d) as u8]
}

/// What unpadded base64url decoding yields on a character sequence:
/// the bytes, or `None` when the text is not a canonical encoding.
pub open spec fn spec_b64url_decode(s: Seq<char>) -> Option<Seq<u8>>
    decreases s.len(),
{
    if s.len() == 0 {
        Some(Seq::empty())
    } else if s.len() == 1 {
        None
    } else if s.len() == 2 {
        match (b64_char_val(s[0]), b64_char_val(s[1])) {
            (Some(a), Some(b)) => b64_group2(a, b),
            _ => None,
        }
    } else if s.len() == 3 {
        match (b64_char_val(s[0]), b64_char_val(s[1]), b64_char_val(s[2])) {
            (Some(a), Some(b), Some(c)) => b64_group3(a, b, c),
            _ => None,
        }
    } else {
        match (b64_char_val(s[0]), b64_char_val(s[1]), b64_char_val(s[2]), b64_char_val(s[3])) {
            (Some(a), Some(b), Some(c), Some(d)) => match spec_b64url_decode(s.skip(4)) {
                Some(rest) => Some(b64_group4(a, b, c, d) + rest),
                None => None,
            },
            _ => None,
        }
    }
}

/// A prefix of already-decoded bytes joined with the decoding of the rest.
spec fn opt_concat(pre: Seq<u8>, rest: Option<Seq<u8>>) -> Option<Seq<u8>> {
    match rest {
        Some(r) => Some(pre + r),
        None => None,
    }
}

/// The digit value of one ASCII byte.
fn b64_byte_val(b: u8) -> (r: Option<u8>)
    ensures
        match r {
            Some(v) => v < 64 && b64_val_of(b as int) == Some(v as int),
            None => b64_val_of(b as int) is None,
        },
{
    if 65 <= b && b <= 90 {
        Some(b - 65)
    } else if 97 <= b && b <= 122 {
        Some(b - 97 + 26)
    } else if 48 <= b && b <= 57 {
        Some(b - 48 + 52)
    } else if b == 45 {
        Some(62)
    } else if b == 95 {
        Some(63)
    } else {
        None
    }
}

/// An ASCII byte read out of a string carries the same code as the character.
proof fn lemma_ascii_byte_code(s: Seq<char>, i: int, b: u8)
    requires
        is_ascii_chars(s),
        0 <= i < s.len(),
        s[i] as u8 == b,
    ensures
        s[i] as int == b as int,
        b64_char_val(s[i]) == b64_val_of(b as int),
{
    assert('\0' <= s[i] <= '\u{7f}');
}

/// Decodes unpadded base64url text into bytes; `None` when the text is not
/// a canonical encoding.
pub fn b64url_decode_ascii(s: &str) -> (r: Option<Vec<u8>>)
    requires
        s.is_ascii(),
    ensures
        match r {
            Some(v) => spec_b64url_decode(s@) == Some(v@),
            None => spec_b64url_decode(s@) is None,
        },
{
    let n: usize = s.unicode_len();
    let mut out: Vec<u8> = Vec::new();
    let mut i: usize = 0;
    proof {
        assert(s@.skip(0) == s@);
    }
    while n - i >= 4
        invariant
            s.is_ascii(),
            n == s@.len(),
            i <= n,
            spec_b64url_decode(s@) == opt_concat(out@, spec_b64url_decode(s@.skip(i as int))),
        decreases n - i,
    {
        let b0 = s.get_ascii(i);
        let b1 = s.get_ascii(i + 1);
        let b2 = s.get_ascii(i + 2);
        let b3 = s.get_ascii(i + 3);
        proof {
            lemma_ascii_byte_code(s@, i as int, b0);
            lemma_ascii_byte_code(s@, i + 1, b1);
            lemma_ascii_byte_code(s@, i + 2, b2);
            lemma_ascii_byte_code(s@, i + 3, b3);
        }
        match (b64_byte_val(b0), b64_byte_val(b1), b64_byte_val(b2), b64_byte_val(b3)) {
            (Some(a), Some(b), Some(c), Some(d)) => {
                let ghost tail = s@.skip(i as int);
                let ghost out0 = out@;
                proof {
                    assert(tail.len() >= 4);
                    assert(tail[0] == s@[i as int]);
                    assert(tail[1] == s@[i + 1]);
                    assert(tail[2] == s@[i + 2]);
                    assert(tail[3] == s@[i + 3]);
                    assert(tail.skip(4) =~= s@.skip(i + 4));
                }
                out.push(a * 4 + b / 16);
                out.push((b % 16) * 16 + c / 4);
                out.push((c % 4) * 64 + d);
                proof {
                    let g = b64_group4(a as int, b as int, c as int, d as int);
                    assert(out@ =~= out0 + g);
                    match spec_b64url_decode(s@.skip(i + 4)) {
                        Some(rest) => {
                            assert((out0 + g) + rest =~= out0 + (g + rest));
                        },
                        None => {},
                    }
                }
                i = i + 4;
            },
            _ => {
                return None;
            },
        }
    }
    let rem: usize = n - i;
    let ghost tail = s@.skip(i as int);
    proof {
        assert(tail.len() == rem);
    }
    if rem == 0 {
        proof {
            if let Some(full) = spec_b64url_decode(s@) {
                assert(out@ + Seq::<u8>::empty() =~= out@);
            }
        }
        Some(out)
    } else if rem == 1 {
        None
    } else {
        let b0 = s.get_ascii(i);
        let b1 = s.get_ascii(i + 1);
        proof {
            lemma_ascii_byte_code(s@, i as int, b0);
            lemma_ascii_byte_code(s@, i + 1, b1);
            assert(tail[0] == s@[i as int]);
            assert(tail[1] == s@[i + 1]);
        }
        match (b64_byte_val(b0), b64_byte_val(b1)) {
            (Some(a), Some(b)) => {
                if rem == 2 {
                    if b % 16 == 0 {
                        let ghost out0 = out@;
                        out.push(a * 4 + b / 16);
                        proof {
                            let g = b64_group2(a as int, b as int).unwrap();
                            assert(out@ =~= out0 + g);
                        }
                        Some(out)
                    } else {
                        None
                    }
                } else {
                    let b2 = s.get_ascii(i + 2);
                    proof {
                        lemma_ascii_byte_code(s@, i + 2, b2);
                        assert(tail[2] == s@[i + 2]);
                    }
                    match b64_byte_val(b2) {
                        Some(c) => {
                            if c % 4 == 0 {
                                let ghost out0 = out@;
                                out.push(a * 4 + b / 16);
                                out.push((b % 16) * 16 + c / 4);
                                proof {
                                    let g = b64_group3(a as int, b as int, c as int).unwrap();
                                    assert(out@ =~= out0 + g);
                                }
                                Some(out)
                            } else {
                                None
                            }
                        },
                        None => None,
                    }
                }
            },
            _ => None,
        }
    }
}

} // verus!
