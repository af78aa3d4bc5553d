//! The stream backend: ChaCha20.
//!
//! Sealing XORs the plaintext with the keystream for (key, nonce), so the
//! output has exactly the length of the input and opening is the same
//! transform again. This backend carries no authentication tag: opening
//! with wrong credentials cannot be detected and silently yields garbage.
//! That is a documented limitation of the stream cipher, not a defect to
//! patch here; callers wanting integrity pair it with a MAC or use the
//! AEAD backend.

use chacha20::cipher::KeyIvInit;
use chacha20::cipher::StreamCipher;
use vstd::prelude::*;

use crate::errors::EngineError;

verus! {

/// The largest buffer one ChaCha20 keystream covers: the 32-bit block
/// counter leaves 2^32 - 1 full blocks of 64 bytes from a fresh cipher.
pub const CHACHA_MAX: u64 = 0x3FFFFFFFC0;

/// The ChaCha20 keystream for a key and nonce, truncated to `len` bytes.
/// A function of its arguments alone; its value is not spelled out here,
/// only named.
pub uninterp spec fn chacha20_keystream(key: Seq<u8>, nonce: Seq<u8>, len: nat) -> Seq<u8>;

/// `data` XORed byte for byte with `ks`.
pub open spec fn xor_with(data: Seq<u8>, ks: Seq<u8>) -> Seq<u8> {
    Seq::new(data.len(), |i: int| data[i] ^ ks[i])
}

/// What sealing and opening both do to a buffer: XOR it with the
/// keystream of its own length.
pub open spec fn stream_transform(key: Seq<u8>, nonce: Seq<u8>, data: Seq<u8>) -> Seq<u8> {
    xor_with(data, chacha20_keystream(key, nonce, data.len()))
}

/// Relies on `chacha20::ChaCha20` through
/// `cipher::StreamCipher::apply_keystream`: XORs the buffer in place with
/// the keystream for (key, nonce) from block counter zero, a function of
/// key and nonce alone.
#[verifier::external_body]
fn apply_keystream_raw(data: &mut Vec<u8>, key: &[u8], nonce: &[u8])
    requires
        key@.len() == 32,
        nonce@.len() == 12,
        old(data)@.len() <= CHACHA_MAX,
    ensures
        final(data)@ == xor_with(old(data)@, chacha20_keystream(key@, nonce@, old(data)@.len())),
{
    let mut cipher = chacha20::ChaCha20::new(key.into(), nonce.into());
    cipher.apply_keystream(data.as_mut_slice());
}

/// Seal a plaintext under ChaCha20. Succeeds exactly when the key is 32
/// bytes, the nonce 12, and the plaintext within one keystream; the
/// result is the keystream XOR, as long as the input.
pub fn stream_seal(plain: &[u8], key: &[u8], nonce: &[u8]) -> (r: Result<Vec<u8>, EngineError>)
    ensures
        r is Ok <==> key@.len() == 32 && nonce@.len() == 12 && plain@.len() <= CHACHA_MAX,
        r matches Ok(ct) ==> ct@ == stream_transform(key@, nonce@, plain@) && ct@.len()
            == plain@.len(),
        r matches Err(e) ==> (if key@.len() != 32 {
            e is InvalidKeyLength
        } else if nonce@.len() != 12 {
            e is InvalidNonceLength
        } else {
            e is CipherError
        }),
{
    if key.len() != 32 {
        return Err(EngineError::InvalidKeyLength);
    }
    if nonce.len() != 12 {
        return Err(EngineError::InvalidNonceLength);
    }
    if plain.len() as u64 > CHACHA_MAX {
        return Err(EngineError::CipherError);
    }
    let mut data = vstd::slice::slice_to_vec(plain);
    apply_keystream_raw(&mut data, key, nonce);
    Ok(data)
}

/// Open a ChaCha20 sealing: the same keystream XOR. Succeeds under the
/// same conditions as sealing. There is no tag to check, so nothing here
/// can tell wrong credentials from right ones; see the module note.
pub fn stream_open(ct: &[u8], key: &[u8], nonce: &[u8]) -> (r: Result<Vec<u8>, EngineError>)
    ensures
        r is Ok <==> key@.len() == 32 && nonce@.len() == 12 && ct@.len() <= CHACHA_MAX,
        r matches Ok(p) ==> p@ == stream_transform(key@, nonce@, ct@) && p@.len() == ct@.len(),
        r matches Err(e) ==> (if key@.len() != 32 {
            e is InvalidKeyLength
        } else if nonce@.len() != 12 {
            e is InvalidNonceLength
        } else {
            e is CipherError
        }),
{
    if key.len() != 32 {
        return Err(EngineError::InvalidKeyLength);
    }
    if nonce.len() != 12 {
        return Err(EngineError::InvalidNonceLength);
    }
    if ct.len() as u64 > CHACHA_MAX {
        return Err(EngineError::CipherError);
    }
    let mut data = vstd::slice::slice_to_vec(ct);
    apply_keystream_raw(&mut data, key, nonce);
    Ok(data)
}

/// Round trip for the stream backend: applying the keystream transform
/// twice under the same credentials returns the original bytes, so
/// opening a sealed plaintext with the credentials that sealed it gives
/// the plaintext back exactly.
pub proof fn lemma_stream_round_trip(key: Seq<u8>, nonce: Seq<u8>, plain: Seq<u8>)
    ensures
        stream_transform(key, nonce, stream_transform(key, nonce, plain)) == plain,
{
    let ks = chacha20_keystream(key, nonce, plain.len());
    let once = stream_transform(key, nonce, plain);
    let twice = stream_transform(key, nonce, once);
    assert forall|i: int| 0 <= i < plain.len() implies twice[i] == plain[i] by {
        let a = plain[i];
        let b = ks[i];
        assert(a ^ b ^ b == a) by (bit_vector);
    }
    assert(twice =~= plain);
}

} // verus!
