//! The artifact codec: algorithm selection, credential lifecycle, the
//! on-disk artifact layout, and output file names.
//!
//! Each backend has one fixed artifact layout, applied the same way on
//! both directions of the trip:
//!
//! * AES-GCM embeds the nonce: the artifact is the 12 nonce bytes
//!   followed by the sealed bytes, and decryption takes the nonce from
//!   the artifact itself.
//! * ChaCha20 detaches the nonce: the artifact is the sealed bytes alone,
//!   and decryption uses the nonce from the credential pair.

use vstd::prelude::*;

use crate::aead::GCM_C_MAX;
use crate::aead::GCM_P_MAX;
use crate::aead::aead_open;
use crate::aead::aead_seal;
use crate::aead::aes_gcm_cipher;
use crate::credentials::bytes_to_hex;
use crate::credentials::decode_key;
use crate::credentials::decode_nonce;
use crate::credentials::hex_decode_spec;
use crate::credentials::hex_encode_spec;
use crate::credentials::is_key_hex;
use crate::credentials::is_nonce_hex;
use crate::errors::EngineError;
use crate::rng::random_bytes;
use crate::stream::CHACHA_MAX;
use crate::stream::stream_open;
use crate::stream::stream_seal;
use crate::stream::stream_transform;

verus! {

/// The two cipher backends a caller can pick.
#[derive(Debug, Clone, Copy, PartialEq, Eq, Structural)]
pub enum Algorithms {
    AES,
    ChaCha20,
}

impl Algorithms {
    /// What `label` returns for each algorithm.
    pub open spec fn label_spec(&self) -> Seq<char> {
        match self {
            Algorithms::AES => "AES"@,
            Algorithms::ChaCha20 => "ChaCha20"@,
        }
    }

    /// The algorithm's display name.
    pub fn label(&self) -> (r: String)
        ensures
            r@ == self.label_spec(),
    {
        match self {
            Algorithms::AES => String::from_str("AES"),
            Algorithms::ChaCha20 => String::from_str("ChaCha20"),
        }
    }
}

/// A fresh credential pair from the secure random source: a 32-byte key
/// and a 12-byte nonce. Generation cannot fail recoverably; a broken
/// random source aborts the process.
pub fn generate_credentials() -> (r: (Vec<u8>, Vec<u8>))
    ensures
        r.0@.len() == 32,
        r.1@.len() == 12,
{
    (random_bytes(32), random_bytes(12))
}

/// The largest plaintext each backend accepts.
pub open spec fn plain_limit(algorithm: Algorithms) -> u64 {
    match algorithm {
        Algorithms::AES => GCM_P_MAX,
        Algorithms::ChaCha20 => CHACHA_MAX,
    }
}

/// The artifact written for a plaintext sealed under (key, nonce):
/// nonce-prefixed AEAD output, or the bare stream output.
pub open spec fn artifact_spec(
    algorithm: Algorithms,
    key: Seq<u8>,
    nonce: Seq<u8>,
    plain: Seq<u8>,
) -> Seq<u8> {
    match algorithm {
        Algorithms::AES => nonce + aes_gcm_cipher(key, nonce, plain),
        Algorithms::ChaCha20 => stream_transform(key, nonce, plain),
    }
}

/// The artifact's length as a function of the plaintext's: the AEAD
/// artifact carries 28 bytes of nonce and tag overhead, the stream
/// artifact none.
pub open spec fn artifact_len_spec(algorithm: Algorithms, plain_len: nat) -> nat {
    match algorithm {
        Algorithms::AES => plain_len + 28,
        Algorithms::ChaCha20 => plain_len,
    }
}

/// Seal a plaintext under explicit credentials and wrap it in the
/// artifact layout. Succeeds exactly when the key is 32 bytes, the nonce
/// 12, and the plaintext within the backend's limit.
pub fn encrypt_bytes_with(
    plain: &[u8],
    algorithm: Algorithms,
    key: &[u8],
    nonce: &[u8],
) -> (r: Result<Vec<u8>, EngineError>)
    ensures
        r is Ok <==> key@.len() == 32 && nonce@.len() == 12 && plain@.len() <= plain_limit(
            algorithm,
        ),
        r matches Ok(art) ==> art@ == artifact_spec(algorithm, key@, nonce@, plain@) && art@.len()
            == artifact_len_spec(algorithm, plain@.len()),
        r matches Err(e) ==> (if key@.len() != 32 {
            e is InvalidKeyLength
        } else if nonce@.len() != 12 {
            e is InvalidNonceLength
        } else {
            e is CipherError
        }),
{
    match algorithm {
        Algorithms::AES => {
            let ct = aead_seal(plain, key, nonce)?;
            let mut art = vstd::slice::slice_to_vec(nonce);
            let mut ct_tail = ct;
            art.append(&mut ct_tail);
            Ok(art)
        },
        Algorithms::ChaCha20 => stream_seal(plain, key, nonce),
    }
}

/// Encrypt a plaintext: generate fresh credentials, seal, wrap. Returns
/// the credential pair in hex beside the artifact. Fails only when the
/// plaintext is over the backend's limit, and then with `CipherError`.
pub fn encrypt_bytes(plain: &[u8], algorithm: Algorithms) -> (r: Result<
    (String, String, Vec<u8>),
    EngineError,
>)
    ensures
        plain@.len() <= plain_limit(algorithm) ==> r is Ok,
        r matches Ok(out) ==> (exists|key: Seq<u8>, nonce: Seq<u8>|
            {
                &&& key.len() == 32
                &&& nonce.len() == 12
                &&& out.0@ == hex_encode_spec(key)
                &&& out.1@ == hex_encode_spec(nonce)
                &&& out.2@ == #[trigger] artifact_spec(algorithm, key, nonce, plain@)
                &&& out.2@.len() == artifact_len_spec(algorithm, plain@.len())
            }),
        r matches Err(e) ==> e is CipherError && plain@.len() > plain_limit(algorithm),
{
    let (key, nonce) = generate_credentials();
    let art = encrypt_bytes_with(plain, algorithm, key.as_slice(), nonce.as_slice())?;
    let key_hex = bytes_to_hex(key.as_slice());
    let nonce_hex = bytes_to_hex(nonce.as_slice());
    proof {
        assert(artifact_spec(algorithm, key@, nonce@, plain@) == art@);
    }
    Ok((key_hex, nonce_hex, art))
}

/// Whether an artifact is a genuine AEAD artifact for plaintext `p` under
/// `key`: long enough to carry its embedded nonce, with the rest sealed
/// from `p` under that nonce.
pub open spec fn aead_artifact_ok(key: Seq<u8>, artifact: Seq<u8>, p: Seq<u8>) -> bool {
    artifact.len() >= 12 && artifact.skip(12) == aes_gcm_cipher(key, artifact.take(12), p)
}

/// Round trip for the AEAD backend, at the artifact level: the artifact
/// wrapped from a sealing of `plain` under (key, nonce) carries that
/// nonce embedded, and meets exactly the acceptance condition
/// `decrypt_artifact` promises to honour — whose only possible answer,
/// by that function's contract, is `plain` itself.
pub proof fn lemma_aead_round_trip(key: Seq<u8>, nonce: Seq<u8>, plain: Seq<u8>, ct: Seq<u8>)
    requires
        nonce.len() == 12,
        ct == aes_gcm_cipher(key, nonce, plain),
    ensures
        (nonce + ct).take(12) == nonce,
        aead_artifact_ok(key, nonce + ct, plain),
        nonce + ct == artifact_spec(Algorithms::AES, key, nonce, plain),
{
    assert((nonce + ct).take(12) =~= nonce);
    assert((nonce + ct).skip(12) =~= ct);
}

/// Unwrap an artifact and open it under explicit byte credentials.
///
/// AEAD artifacts authenticate: the result is `Ok` exactly on genuine
/// artifacts (then the sealed plaintext comes back whole), and any
/// truncated, altered or foreign artifact is `AuthenticationFailed`.
/// Stream artifacts always open structurally; see the stream module's
/// note on wrong credentials.
pub fn decrypt_artifact(
    artifact: &[u8],
    algorithm: Algorithms,
    key: &[u8],
    nonce: &[u8],
) -> (r: Result<Vec<u8>, EngineError>)
    ensures
        key@.len() != 32 ==> (r matches Err(e) && e is InvalidKeyLength),
        key@.len() == 32 && nonce@.len() != 12 ==> (r matches Err(e) && e is InvalidNonceLength),
        key@.len() == 32 && nonce@.len() == 12 && algorithm is AES ==> {
            &&& (r matches Ok(p) ==> aead_artifact_ok(key@, artifact@, p@))
            &&& (artifact@.len() <= GCM_C_MAX + 12 ==> (forall|p: Seq<u8>|
                aead_artifact_ok(key@, artifact@, p) ==> (r matches Ok(q) && q@ == p)))
            &&& (r matches Err(e) ==> e is AuthenticationFailed)
        },
        key@.len() == 32 && nonce@.len() == 12 && algorithm is ChaCha20 ==> {
            &&& (r is Ok <==> artifact@.len() <= CHACHA_MAX)
            &&& (r matches Ok(p) ==> p@ == stream_transform(key@, nonce@, artifact@))
            &&& (r matches Err(e) ==> e is CipherError)
        },
{
    if key.len() != 32 {
        return Err(EngineError::InvalidKeyLength);
    }
    if nonce.len() != 12 {
        return Err(EngineError::InvalidNonceLength);
    }
    match algorithm {
        Algorithms::AES => {
            if artifact.len() < 12 {
                return Err(EngineError::AuthenticationFailed);
            }
            let (file_nonce, body) = artifact.split_at(12);
            proof {
                assert(file_nonce@ == artifact@.take(12));
                assert(body@ == artifact@.skip(12));
            }
            aead_open(body, key, file_nonce)
        },
        Algorithms::ChaCha20 => stream_open(artifact, key, nonce),
    }
}

/// Decode the credential pair and open the artifact with it.
///
/// Credentials are checked before any cipher runs: a key string that is
/// not 64 hex characters, or a nonce string that is not 24, is
/// `InvalidCredentialEncoding`. With the AEAD backend the artifact's
/// embedded nonce drives decryption, as the layout prescribes; the nonce
/// credential is still validated so a mistyped one is reported here
/// rather than silently ignored.
pub fn decrypt_bytes(
    artifact: &[u8],
    algorithm: Algorithms,
    key_hex: &str,
    nonce_hex: &str,
) -> (r: Result<Vec<u8>, EngineError>)
    ensures
        !(is_key_hex(key_hex@) && is_nonce_hex(nonce_hex@)) <==> (r matches Err(e)
            && e is InvalidCredentialEncoding),
        is_key_hex(key_hex@) && is_nonce_hex(nonce_hex@) && algorithm is AES ==> ({
            let key = hex_decode_spec(key_hex@);
            &&& (r matches Ok(p) ==> aead_artifact_ok(key, artifact@, p@))
            &&& (artifact@.len() <= GCM_C_MAX + 12 ==> (forall|p: Seq<u8>|
                aead_artifact_ok(key, artifact@, p) ==> (r matches Ok(q) && q@ == p)))
            &&& (r matches Err(e) ==> e is AuthenticationFailed)
        }),
        is_key_hex(key_hex@) && is_nonce_hex(nonce_hex@) && algorithm is ChaCha20 ==> ({
            let key = hex_decode_spec(key_hex@);
            let nonce = hex_decode_spec(nonce_hex@);
            &&& (r is Ok <==> artifact@.len() <= CHACHA_MAX)
            &&& (r matches Ok(p) ==> p@ == stream_transform(key, nonce, artifact@))
            &&& (r matches Err(e) ==> e is CipherError)
        }),
{
    let key = decode_key(key_hex)?;
    let nonce = decode_nonce(nonce_hex)?;
    decrypt_artifact(artifact, algorithm, key.as_slice(), nonce.as_slice())
}

/// The file name an encrypted artifact is written under, derived from the
/// input's name and extension.
pub open spec fn encrypted_name_spec(
    algorithm: Algorithms,
    file_name: Seq<char>,
    extension: Seq<char>,
) -> Seq<char> {
    match algorithm {
        Algorithms::AES => if extension.len() == 0 {
            file_name + "_encrypted"@
        } else {
            file_name + "_encrypted."@ + extension
        },
        Algorithms::ChaCha20 => file_name + "_encrypted.txt"@,
    }
}

/// The file name a decrypted plaintext is written under, derived from the
/// input's stem and extension.
pub open spec fn decrypted_name_spec(
    algorithm: Algorithms,
    file_stem: Seq<char>,
    extension: Seq<char>,
) -> Seq<char> {
    match algorithm {
        Algorithms::AES => if extension.len() == 0 {
            file_stem + "_decrypted"@
        } else {
            file_stem + "_decrypted."@ + extension
        },
        Algorithms::ChaCha20 => file_stem + "_decrypted.txt"@,
    }
}

/// Derive the output name for an artifact: the input's full name with an
/// encryption marker spliced in. Always longer than the input name, so
/// the artifact never lands on the input file.
pub fn encrypted_output_name(algorithm: Algorithms, file_name: &str, extension: &str) -> (r:
    String)
    ensures
        r@ == encrypted_name_spec(algorithm, file_name@, extension@),
        r@ != file_name@,
{
    proof {
        reveal_strlit("_encrypted");
        reveal_strlit("_encrypted.");
        reveal_strlit("_encrypted.txt");
    }
    let mut out = file_name.to_owned();
    match algorithm {
        Algorithms::AES => {
            if extension.is_empty() {
                out.append("_encrypted");
            } else {
                out.append("_encrypted.");
                out.append(extension);
            }
        },
        Algorithms::ChaCha20 => {
            out.append("_encrypted.txt");
        },
    }
    proof {
        assert(out@.len() > file_name@.len());
        assert(out@ != file_name@);
    }
    out
}

/// Derive the output name for a recovered plaintext: the input's stem
/// with a decryption marker spliced in.
pub fn decrypted_output_name(algorithm: Algorithms, file_stem: &str, extension: &str) -> (r:
    String)
    ensures
        r@ == decrypted_name_spec(algorithm, file_stem@, extension@),
        r@ != file_stem@,
{
    proof {
        reveal_strlit("_decrypted");
        reveal_strlit("_decrypted.");
        reveal_strlit("_decrypted.txt");
    }
    let mut out = file_stem.to_owned();
    match algorithm {
        Algorithms::AES => {
            if extension.is_empty() {
                out.append("_decrypted");
            } else {
                out.append("_decrypted.");
                out.append(extension);
            }
        },
        Algorithms::ChaCha20 => {
            out.append("_decrypted.txt");
        },
    }
    proof {
        assert(out@.len() > file_stem@.len());
        assert(out@ != file_stem@);
    }
    out
}

} // verus!

