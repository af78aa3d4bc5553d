//! The authenticated backend: AES-256-GCM.
//!
//! Sealing appends a 16-byte authentication tag to the encrypted bytes;
//! opening verifies that tag before returning anything, so wrong
//! credentials or a corrupted ciphertext surface as
//! [`EngineError::AuthenticationFailed`], never as altered plaintext.

use aes_gcm::aead::Aead;
use aes_gcm::aead::KeyInit;
use vstd::prelude::*;

use crate::errors::EngineError;

verus! {

/// The largest plaintext AES-GCM will seal (the NIST counter limit,
/// 2^36 bytes).
pub const GCM_P_MAX: u64 = 0x1000000000;

/// The largest input `aead_open` will consider: a sealed `GCM_P_MAX`
/// plaintext plus the 16-byte tag.
pub const GCM_C_MAX: u64 = 0x1000000010;

/// What AES-256-GCM returns for a key, nonce and plaintext: the encrypted
/// bytes followed by the 16-byte tag. A function of its arguments alone;
/// its value is not spelled out here, only named.
pub uninterp spec fn aes_gcm_cipher(key: Seq<u8>, nonce: Seq<u8>, plain: Seq<u8>) -> Seq<u8>;

/// Relies on `aes_gcm::Aes256Gcm` through `aead::Aead::encrypt`:
/// AES-256-GCM is deterministic in key, nonce and plaintext, the result is
/// the encrypted input followed by the 16-byte tag, and no input within
/// the GCM length limit fails.
#[verifier::external_body]
fn seal_raw(plain: &[u8], key: &[u8], nonce: &[u8]) -> (r: Vec<u8>)
    requires
        key@.len() == 32,
        nonce@.len() == 12,
        plain@.len() <= GCM_P_MAX,
    ensures
        r@ == aes_gcm_cipher(key@, nonce@, plain@),
        r@.len() == plain@.len() + 16,
{
    let cipher = aes_gcm::Aes256Gcm::new(aes_gcm::Key::<aes_gcm::Aes256Gcm>::from_slice(key));
    cipher.encrypt(aes_gcm::Nonce::from_slice(nonce), plain).unwrap()
}

/// Relies on `aes_gcm::Aes256Gcm` through `aead::Aead::decrypt`: the tag
/// over the input is recomputed and compared, so decryption returns bytes
/// exactly when the input is the sealing of some plaintext under this key
/// and nonce, and then returns that plaintext.
#[verifier::external_body]
fn open_raw(ct: &[u8], key: &[u8], nonce: &[u8]) -> (r: Option<Vec<u8>>)
    requires
        key@.len() == 32,
        nonce@.len() == 12,
        ct@.len() <= GCM_C_MAX,
    ensures
        r matches Some(p) ==> ct@ == aes_gcm_cipher(key@, nonce@, p@),
        r is None ==> forall|p: Seq<u8>| ct@ != aes_gcm_cipher(key@, nonce@, p),
        r matches Some(p) ==> forall|q: Seq<u8>| ct@ == aes_gcm_cipher(key@, nonce@, q) ==> p@ == q,
{
    let cipher = aes_gcm::Aes256Gcm::new(aes_gcm::Key::<aes_gcm::Aes256Gcm>::from_slice(key));
    cipher.decrypt(aes_gcm::Nonce::from_slice(nonce), ct).ok()
}

/// Seal a plaintext under AES-256-GCM. Succeeds exactly when the key is
/// 32 bytes, the nonce 12, and the plaintext within the GCM length limit;
/// the result is the ciphertext with its tag appended.
pub fn aead_seal(plain: &[u8], key: &[u8], nonce: &[u8]) -> (r: Result<Vec<u8>, EngineError>)
    ensures
        r is Ok <==> key@.len() == 32 && nonce@.len() == 12 && plain@.len() <= GCM_P_MAX,
        r matches Ok(ct) ==> ct@ == aes_gcm_cipher(key@, nonce@, plain@) && ct@.len() == plain@.len()
            + 16,
        r matches Err(e) ==> (if key@.len() != 32 {
            e is InvalidKeyLength
        } else if nonce@.len() != 12 {
            e is InvalidNonceLength
        } else {
            e is CipherError
        }),
{
    if key.len() != 32 {
        return Err(EngineError::InvalidKeyLength);
    }
    if nonce.len() != 12 {
        return Err(EngineError::InvalidNonceLength);
    }
    if plain.len() as u64 > GCM_P_MAX {
        return Err(EngineError::CipherError);
    }
    Ok(seal_raw(plain, key, nonce))
}

/// Open an AES-256-GCM sealing. With well-sized credentials the result is
/// `Ok` exactly on inputs that are the sealing of some plaintext under
/// this key and nonce — then that plaintext comes back whole — and
/// `AuthenticationFailed` on every other input.
pub fn aead_open(ct: &[u8], key: &[u8], nonce: &[u8]) -> (r: Result<Vec<u8>, EngineError>)
    ensures
        key@.len() != 32 ==> (r matches Err(e) && e is InvalidKeyLength),
        key@.len() == 32 && nonce@.len() != 12 ==> (r matches Err(e) && e is InvalidNonceLength),
        key@.len() == 32 && nonce@.len() == 12 ==> {
            &&& (r matches Ok(p) ==> ct@ == aes_gcm_cipher(key@, nonce@, p@))
            &&& (ct@.len() <= GCM_C_MAX ==> (forall|p: Seq<u8>|
                ct@ == aes_gcm_cipher(key@, nonce@, p) ==> (r matches Ok(q) && q@ == p)))
            &&& (r matches Err(e) ==> e is AuthenticationFailed)
        },
{
    if key.len() != 32 {
        return Err(EngineError::InvalidKeyLength);
    }
    if nonce.len() != 12 {
        return Err(EngineError::InvalidNonceLength);
    }
    if ct.len() as u64 > GCM_C_MAX {
        return Err(EngineError::AuthenticationFailed);
    }
    match open_raw(ct, key, nonce) {
        Some(p) => Ok(p),
        None => Err(EngineError::AuthenticationFailed),
    }
}

} // verus!
