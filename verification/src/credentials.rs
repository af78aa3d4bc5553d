//! Credential encoding: keys and nonces travel as lowercase hex strings
//! (64 characters for a 32-byte key, 24 for a 12-byte nonce). Decoding
//! rejects any string of the wrong length or holding a non-hex character.

use vstd::prelude::*;

use crate::errors::EngineError;

verus! {

/// The lowercase hex digit for a value below 16.
pub open spec fn hex_digit_char(v: u8) -> char
    recommends
        v < 16,
{
    if v == 0 {
        '0'
    } else if v == 1 {
        '1'
    } else if v == 2 {
        '2'
    } else if v == 3 {
        '3'
    } else if v == 4 {
        '4'
    } else if v == 5 {
        '5'
    } else if v == 6 {
        '6'
    } else if v == 7 {
        '7'
    } else if v == 8 {
        '8'
    } else if v == 9 {
        '9'
    } else if v == 10 {
        'a'
    } else if v == 11 {
        'b'
    } else if v == 12 {
        'c'
    } else if v == 13 {
        'd'
    } else if v == 14 {
        'e'
    } else {
        'f'
    }
}

/// Whether `c` is a hex digit; both letter cases are accepted on input.
pub open spec fn is_hex_char(c: char) -> bool {
    ('0' as int <= c as int && c as int <= '9' as int) || ('a' as int <= c as int && c as int
        <= 'f' as int) || ('A' as int <= c as int && c as int <= 'F' as int)
}

/// The numeric value of a hex digit.
pub open spec fn hex_char_val(c: char) -> u8
    recommends
        is_hex_char(c),
{
    if '0' as int <= c as int && c as int <= '9' as int {
        (c as int - '0' as int) as u8
    } else if 'a' as int <= c as int && c as int <= 'f' as int {
        (c as int - 'a' as int + 10) as u8
    } else {
        (c as int - 'A' as int + 10) as u8
    }
}

/// Lowercase hex encoding of a byte string: two digits per byte, high
/// nibble first.
pub open spec fn hex_encode_spec(bytes: Seq<u8>) -> Seq<char> {
    Seq::new(
        bytes.len() * 2,
        |i: int|
            if i % 2 == 0 {
                hex_digit_char((bytes[i / 2] as int / 16) as u8)
            } else {
                hex_digit_char((bytes[i / 2] as int % 16) as u8)
            },
    )
}

/// The byte string a hex string stands for; meaningful when
/// `is_hex_string` holds of the input.
pub open spec fn hex_decode_spec(s: Seq<char>) -> Seq<u8> {
    Seq::new(
        s.len() / 2,
        |i: int| (hex_char_val(s[2 * i]) * 16 + hex_char_val(s[2 * i + 1])) as u8,
    )
}

/// A string that decodes: even length, hex digits throughout.
pub open spec fn is_hex_string(s: Seq<char>) -> bool {
    s.len() % 2 == 0 && (forall|i: int| 0 <= i < s.len() ==> is_hex_char(#[trigger] s[i]))
}

/// A valid key encoding: 64 hex characters (32 bytes).
pub open spec fn is_key_hex(s: Seq<char>) -> bool {
    s.len() == 64 && is_hex_string(s)
}

/// A valid nonce encoding: 24 hex characters (12 bytes).
pub open spec fn is_nonce_hex(s: Seq<char>) -> bool {
    s.len() == 24 && is_hex_string(s)
}

/// The one-character string for a nibble, used to build hex encodings.
fn nibble_str(v: u8) -> (r: &'static str)
    requires
        v < 16,
    ensures
        r@.len() == 1,
        r@[0] == hex_digit_char(v),
{
    proof {
        reveal_strlit("0");
        reveal_strlit("1");
        reveal_strlit("2");
        reveal_strlit("3");
        reveal_strlit("4");
        reveal_strlit("5");
        reveal_strlit("6");
        reveal_strlit("7");
        reveal_strlit("8");
        reveal_strlit("9");
        reveal_strlit("a");
        reveal_strlit("b");
        reveal_strlit("c");
        reveal_strlit("d");
        reveal_strlit("e");
        reveal_strlit("f");
    }
    match v {
        0 => "0",
        1 => "1",
        2 => "2",
        3 => "3",
        4 => "4",
        5 => "5",
        6 => "6",
        7 => "7",
        8 => "8",
        9 => "9",
        10 => "a",
        11 => "b",
        12 => "c",
        13 => "d",
        14 => "e",
        _ => "f",
    }
}

/// Encode bytes as lowercase hex.
pub fn bytes_to_hex(bytes: &[u8]) -> (r: String)
    ensures
        r@ == hex_encode_spec(bytes@),
        r@.len() == bytes@.len() * 2,
{
    let mut out = String::new();
    let mut i: usize = 0;
    while i < bytes.len()
        invariant
            i <= bytes@.len(),
            out@ == hex_encode_spec(bytes@.take(i as int)),
        decreases bytes@.len() - i,
    {
        let b = bytes[i];
        out.append(nibble_str(b / 16));
        out.append(nibble_str(b % 16));
        i = i + 1;
        proof {
            assert(out@ =~= hex_encode_spec(bytes@.take(i as int)));
        }
    }
    proof {
        assert(bytes@.take(bytes@.len() as int) =~= bytes@);
    }
    out
}

/// The numeric value of a hex digit, or `None` for any other character.
fn char_val(c: char) -> (r: Option<u8>)
    ensures
        r is Some <==> is_hex_char(c),
        r matches Some(v) ==> v == hex_char_val(c) && v < 16,
{
    let u = c as u32;
    if 48 <= u && u <= 57 {
        Some((u - 48) as u8)
    } else if 97 <= u && u <= 102 {
        Some((u - 87) as u8)
    } else if 65 <= u && u <= 70 {
        Some((u - 55) as u8)
    } else {
        None
    }
}

/// Decode a hex string; `None` when the length is odd or a character is
/// not a hex digit.
pub fn hex_to_bytes(s: &str) -> (r: Option<Vec<u8>>)
    ensures
        r is Some <==> is_hex_string(s@),
        r matches Some(b) ==> b@ == hex_decode_spec(s@) && b@.len() == s@.len() / 2,
{
    let n = s.unicode_len();
    if n % 2 != 0 {
        return None;
    }
    let mut out: Vec<u8> = Vec::new();
    let mut i: usize = 0;
    while i < n
        invariant
            n == s@.len(),
            n % 2 == 0,
            i % 2 == 0,
            i <= n,
            forall|j: int| 0 <= j < i ==> is_hex_char(#[trigger] s@[j]),
            out@ == hex_decode_spec(s@.take(i as int)),
        decreases n - i,
    {
        let hi = match char_val(s.get_char(i)) {
            Some(v) => v,
            None => { return None; },
        };
        let lo = match char_val(s.get_char(i + 1)) {
            Some(v) => v,
            None => { return None; },
        };
        out.push(hi * 16 + lo);
        i = i + 2;
        proof {
            assert(out@ =~= hex_decode_spec(s@.take(i as int)));
        }
    }
    proof {
        assert(s@.take(n as int) =~= s@);
    }
    Some(out)
}

/// Decode a key credential. Succeeds exactly on 64 hex characters;
/// anything else is `InvalidCredentialEncoding`.
pub fn decode_key(key_hex: &str) -> (r: Result<Vec<u8>, EngineError>)
    ensures
        r is Ok <==> is_key_hex(key_hex@),
        r matches Ok(k) ==> k@ == hex_decode_spec(key_hex@) && k@.len() == 32,
        r matches Err(e) ==> e is InvalidCredentialEncoding,
{
    if key_hex.unicode_len() != 64 {
        return Err(EngineError::InvalidCredentialEncoding);
    }
    match hex_to_bytes(key_hex) {
        Some(k) => Ok(k),
        None => Err(EngineError::InvalidCredentialEncoding),
    }
}

/// Decode a nonce credential. Succeeds exactly on 24 hex characters;
/// anything else is `InvalidCredentialEncoding`.
pub fn decode_nonce(nonce_hex: &str) -> (r: Result<Vec<u8>, EngineError>)
    ensures
        r is Ok <==> is_nonce_hex(nonce_hex@),
        r matches Ok(nn) ==> nn@ == hex_decode_spec(nonce_hex@) && nn@.len() == 12,
        r matches Err(e) ==> e is InvalidCredentialEncoding,
{
    if nonce_hex.unicode_len() != 24 {
        return Err(EngineError::InvalidCredentialEncoding);
    }
    match hex_to_bytes(nonce_hex) {
        Some(nn) => Ok(nn),
        None => Err(EngineError::InvalidCredentialEncoding),
    }
}

/// Encoding a byte string always yields a decodable hex string, and
/// decoding it gives the bytes back: credentials survive the trip through
/// their hex form.
pub proof fn lemma_hex_round_trip(bytes: Seq<u8>)
    ensures
        is_hex_string(hex_encode_spec(bytes)),
        hex_decode_spec(hex_encode_spec(bytes)) == bytes,
{
    let enc = hex_encode_spec(bytes);
    assert forall|i: int| 0 <= i < enc.len() implies is_hex_char(#[trigger] enc[i]) by {
        let b = bytes[i / 2] as int;
        assert(0 <= b < 256);
        assert(0 <= b / 16 < 16) by (nonlinear_arith)
            requires
                0 <= b < 256,
        ;
        assert(0 <= b % 16 < 16);
        lemma_hex_digit_char_val((b / 16) as u8);
        lemma_hex_digit_char_val((b % 16) as u8);
    }
    let dec = hex_decode_spec(enc);
    assert forall|i: int| 0 <= i < bytes.len() implies dec[i] == bytes[i] by {
        let b = bytes[i] as int;
        assert(0 <= b / 16 < 16) by (nonlinear_arith)
            requires
                0 <= b < 256,
        ;
        assert(0 <= b % 16 < 16);
        lemma_hex_digit_char_val((b / 16) as u8);
        lemma_hex_digit_char_val((b % 16) as u8);
        assert(enc[2 * i] == hex_digit_char((b / 16) as u8));
        assert(enc[2 * i + 1] == hex_digit_char((b % 16) as u8));
        assert(hex_char_val(enc[2 * i]) == (b / 16) as u8);
        assert(hex_char_val(enc[2 * i + 1]) == (b % 16) as u8);
        assert((b / 16) * 16 + b % 16 == b) by (nonlinear_arith)
            requires
                0 <= b < 256,
        ;
    }
    assert(dec =~= bytes);
}

/// A hex digit's character is a hex character, and its value is the digit.
proof fn lemma_hex_digit_char_val(v: u8)
    requires
        v < 16,
    ensures
        is_hex_char(hex_digit_char(v)),
        hex_char_val(hex_digit_char(v)) == v,
{
}

} // verus!
