//! Hashing and text renderings of byte strings.

use vstd::prelude::*;
use vstd::utf8::{encode_utf8, is_ascii_chars, is_ascii_chars_encode_utf8};

verus! {

/// The SHA-256 digest of a byte string, as computed by the `sha2` crate.
pub uninterp spec fn spec_sha256(data: Seq<u8>) -> Seq<u8>;

/// Calls `sha2::Sha256::digest` on `data` and copies the 32 output bytes into an array.
/// The digest is a function of the input bytes alone; nothing else is claimed of it.
#[verifier::external_body]
pub(crate) fn sha256(data: &[u8]) -> (out: [u8; 32])
    ensures
        out@ == spec_sha256(data@),
{
    <sha2::Sha256 as sha2::Digest>::digest(data).into()
}

/// The ASCII code of the lowercase hexadecimal digit for a value below sixteen.
pub open spec fn hex_digit_code(nibble: u8) -> u8 {
    if nibble < 10 {
        (nibble + 48) as u8
    } else {
        (nibble + 87) as u8
    }
}

/// The lowercase hexadecimal digit for a value below sixteen.
pub open spec fn hex_digit(nibble: u8) -> char {
    hex_digit_code(nibble) as char
}

/// Lowercase hexadecimal rendering: two digits per byte, high nibble first.
pub open spec fn hex_lower(data: Seq<u8>) -> Seq<char> {
    Seq::new(
        2 * data.len(),
        |i: int|
            if i % 2 == 0 {
                hex_digit(data[i / 2] / 16)
            } else {
                hex_digit(data[i / 2] % 16)
            },
    )
}

/// Calls `hex::encode` on `data`: every byte becomes two lowercase hexadecimal
/// digits, most significant first, in input order.
#[verifier::external_body]
pub(crate) fn hex_encode(data: &[u8]) -> (out: String)
    ensures
        out@ == hex_lower(data@),
{
    hex::encode(data)
}

/// The ASCII bytes of the lowercase hexadecimal rendering.
pub open spec fn hex_lower_codes(data: Seq<u8>) -> Seq<u8> {
    Seq::new(
        2 * data.len(),
        |i: int|
            if i % 2 == 0 {
                hex_digit_code(data[i / 2] / 16)
            } else {
                hex_digit_code(data[i / 2] % 16)
            },
    )
}

/// As bytes, the hexadecimal rendering is its digits' ASCII codes.
pub proof fn lemma_hex_lower_is_ascii(data: Seq<u8>)
    ensures
        encode_utf8(hex_lower(data)) == hex_lower_codes(data),
{
    let text = hex_lower(data);
    assert(is_ascii_chars(text)) by {
        assert forall|i: int| 0 <= i < text.len() implies '\0' <= #[trigger] text[i] <= '\u{7f}' by {
            let nibble = if i % 2 == 0 {
                data[i / 2] / 16
            } else {
                data[i / 2] % 16
            };
            assert(nibble < 16);
            assert(text[i] == hex_digit(nibble));
        }
    }
    is_ascii_chars_encode_utf8(text);
    assert(encode_utf8(text) =~= hex_lower_codes(data)) by {
        assert forall|i: int| 0 <= i < text.len() implies encode_utf8(text)[i] == hex_lower_codes(
            data,
        )[i] by {
            let nibble = if i % 2 == 0 {
                data[i / 2] / 16
            } else {
                data[i / 2] % 16
            };
            assert(nibble < 16);
            assert(text[i] == hex_digit(nibble));
            assert(text[i] as u8 == hex_digit_code(nibble));
        }
    }
}

/// Different bytes have different hexadecimal renderings.
pub proof fn lemma_hex_lower_injective(first: Seq<u8>, second: Seq<u8>)
    requires
        hex_lower_codes(first) == hex_lower_codes(second),
    ensures
        first == second,
{
    assert(hex_lower_codes(first).len() == 2 * first.len());
    assert(hex_lower_codes(second).len() == 2 * second.len());
    assert(first.len() == second.len());
    assert forall|k: int| 0 <= k < first.len() implies first[k] == second[k] by {
        assert(hex_lower_codes(first)[2 * k] == hex_digit_code(first[k] / 16));
        assert(hex_lower_codes(second)[2 * k] == hex_digit_code(second[k] / 16));
        assert(hex_lower_codes(first)[2 * k + 1] == hex_digit_code(first[k] % 16));
        assert(hex_lower_codes(second)[2 * k + 1] == hex_digit_code(second[k] % 16));
        assert(first[k] / 16 == second[k] / 16);
        assert(first[k] % 16 == second[k] % 16);
    }
    assert(first =~= second);
}

/// The value of a lowercase hexadecimal digit given by its ASCII code.
pub fn hex_value(code: u8) -> (out: Option<u8>)
    ensures
        match out {
            Some(nibble) => nibble < 16 && hex_digit_code(nibble) == code,
            None => forall|nibble: u8| nibble < 16 ==> hex_digit_code(nibble) != code,
        },
{
    if 48 <= code && code <= 57 {
        Some(code - 48)
    } else if 97 <= code && code <= 102 {
        Some(code - 87)
    } else {
        None
    }
}

/// Reads back the 32 bytes whose lowercase hexadecimal rendering `codes` is.
/// There are none if `codes` is not such a rendering.
pub fn hex_decode_32(codes: &[u8]) -> (out: Option<[u8; 32]>)
    ensures
        match out {
            Some(data) => hex_lower_codes(data@) == codes@,
            None => forall|data: Seq<u8>| data.len() == 32 ==> hex_lower_codes(data) != codes@,
        },
        forall|data: Seq<u8>|
            data.len() == 32 && hex_lower_codes(data) == codes@ ==> out is Some && out.unwrap()@
                == data,
{
    if codes.len() != 64 {
        assert forall|data: Seq<u8>| data.len() == 32 implies hex_lower_codes(data) != codes@ by {
            assert(hex_lower_codes(data).len() == 64);
        }
        return None;
    }
    let mut data: [u8; 32] = [0u8; 32];
    let mut k: usize = 0;
    while k < 32
        invariant
            k <= 32,
            codes.len() == 64,
            forall|j: int|
                0 <= j < k ==> hex_digit_code(data@[j] / 16) == codes@[2 * j] && hex_digit_code(
                    data@[j] % 16,
                ) == codes@[2 * j + 1],
        decreases 32 - k,
    {
        let high = hex_value(codes[2 * k]);
        let low = hex_value(codes[2 * k + 1]);
        match (high, low) {
            (Some(high), Some(low)) => {
                let byte: u8 = high * 16 + low;
                assert(byte / 16 == high && byte % 16 == low);
                data[k] = byte;
            },
            _ => {
                assert forall|other: Seq<u8>| other.len() == 32 implies hex_lower_codes(other)
                    != codes@ by {
                    let rendered = hex_lower_codes(other);
                    assert(rendered[2 * k] == hex_digit_code(other[k as int] / 16));
                    assert(rendered[2 * k + 1] == hex_digit_code(other[k as int] % 16));
                    assert(other[k as int] / 16 < 16 && other[k as int] % 16 < 16);
                }
                return None;
            },
        }
        k = k + 1;
    }
    assert(hex_lower_codes(data@) =~= codes@) by {
        assert forall|i: int| 0 <= i < 64 implies hex_lower_codes(data@)[i] == codes@[i] by {
            let j = i / 2;
            assert(0 <= j < 32);
            if i % 2 == 0 {
                assert(i == 2 * j);
            } else {
                assert(i == 2 * j + 1);
            }
        }
    }
    assert forall|other: Seq<u8>|
        other.len() == 32 && hex_lower_codes(other) == codes@ implies other == data@ by {
        lemma_hex_lower_injective(other, data@);
    }
    Some(data)
}

} // verus!
