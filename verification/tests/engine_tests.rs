use encora::engine::Algorithms;
use encora::engine::decrypt_artifact;
use encora::engine::decrypt_bytes;
use encora::engine::decrypted_output_name;
use encora::engine::encrypt_bytes;
use encora::engine::encrypt_bytes_with;
use encora::engine::encrypted_output_name;
use encora::engine::generate_credentials;
use encora::errors::EngineError;

#[test]
fn round_trip_aes() {
    let plain = b"the quick brown fox jumps over the lazy dog";
    let (key_hex, nonce_hex, artifact) = encrypt_bytes(plain, Algorithms::AES).unwrap();
    assert_eq!(key_hex.len(), 64);
    assert_eq!(nonce_hex.len(), 24);
    assert_eq!(artifact.len(), plain.len() + 28);
    let recovered = decrypt_bytes(&artifact, Algorithms::AES, &key_hex, &nonce_hex).unwrap();
    assert_eq!(recovered, plain.to_vec());
}

#[test]
fn round_trip_chacha20() {
    let plain = b"stream ciphers keep the length";
    let (key_hex, nonce_hex, artifact) = encrypt_bytes(plain, Algorithms::ChaCha20).unwrap();
    assert_eq!(key_hex.len(), 64);
    assert_eq!(nonce_hex.len(), 24);
    assert_eq!(artifact.len(), plain.len());
    let recovered = decrypt_bytes(&artifact, Algorithms::ChaCha20, &key_hex, &nonce_hex).unwrap();
    assert_eq!(recovered, plain.to_vec());
}

#[test]
fn empty_input_round_trip_aes() {
    let (key_hex, nonce_hex, artifact) = encrypt_bytes(b"", Algorithms::AES).unwrap();
    assert_eq!(artifact.len(), 28);
    let recovered = decrypt_bytes(&artifact, Algorithms::AES, &key_hex, &nonce_hex).unwrap();
    assert_eq!(recovered, Vec::<u8>::new());
}

#[test]
fn empty_input_round_trip_chacha20() {
    let (key_hex, nonce_hex, artifact) = encrypt_bytes(b"", Algorithms::ChaCha20).unwrap();
    assert_eq!(artifact.len(), 0);
    let recovered = decrypt_bytes(&artifact, Algorithms::ChaCha20, &key_hex, &nonce_hex).unwrap();
    assert_eq!(recovered, Vec::<u8>::new());
}

#[test]
fn aead_zero_credentials_reproducible() {
    // The same (key, nonce, plaintext) triple must always seal to the same
    // artifact, so a known-answer vector is possible for AES-GCM.
    let key = [0u8; 32];
    let nonce = [0u8; 12];
    let first = encrypt_bytes_with(b"test", Algorithms::AES, &key, &nonce).unwrap();
    let second = encrypt_bytes_with(b"test", Algorithms::AES, &key, &nonce).unwrap();
    assert_eq!(first, second);
    assert_eq!(first.len(), 4 + 28);
    assert_eq!(&first[..12], &nonce);
    let recovered = decrypt_artifact(&first, Algorithms::AES, &key, &nonce).unwrap();
    assert_eq!(recovered, b"test".to_vec());
}

#[test]
fn stream_zero_credentials_reproducible() {
    let key = [0u8; 32];
    let nonce = [0u8; 12];
    let first = encrypt_bytes_with(b"test", Algorithms::ChaCha20, &key, &nonce).unwrap();
    let second = encrypt_bytes_with(b"test", Algorithms::ChaCha20, &key, &nonce).unwrap();
    assert_eq!(first, second);
    assert_eq!(first.len(), 4);
    let recovered = decrypt_artifact(&first, Algorithms::ChaCha20, &key, &nonce).unwrap();
    assert_eq!(recovered, b"test".to_vec());
}

#[test]
fn generate_credentials_sizes() {
    let (key, nonce) = generate_credentials();
    assert_eq!(key.len(), 32);
    assert_eq!(nonce.len(), 12);
}

#[test]
fn seal_rejects_bad_key_length() {
    let r = encrypt_bytes_with(b"data", Algorithms::AES, &[0u8; 31], &[0u8; 12]);
    assert_eq!(r.unwrap_err(), EngineError::InvalidKeyLength);
    let r = encrypt_bytes_with(b"data", Algorithms::ChaCha20, &[0u8; 33], &[0u8; 12]);
    assert_eq!(r.unwrap_err(), EngineError::InvalidKeyLength);
}

#[test]
fn seal_rejects_bad_nonce_length() {
    let r = encrypt_bytes_with(b"data", Algorithms::AES, &[0u8; 32], &[0u8; 11]);
    assert_eq!(r.unwrap_err(), EngineError::InvalidNonceLength);
    let r = encrypt_bytes_with(b"data", Algorithms::ChaCha20, &[0u8; 32], &[0u8; 13]);
    assert_eq!(r.unwrap_err(), EngineError::InvalidNonceLength);
}

#[test]
fn truncated_aead_artifact_fails_authentication() {
    // Shorter than the embedded nonce: nothing to authenticate.
    let r = decrypt_artifact(&[1u8, 2, 3], Algorithms::AES, &[0u8; 32], &[0u8; 12]);
    assert_eq!(r.unwrap_err(), EngineError::AuthenticationFailed);
    // Nonce present but the body is shorter than a tag.
    let r = decrypt_artifact(&[0u8; 20], Algorithms::AES, &[0u8; 32], &[0u8; 12]);
    assert_eq!(r.unwrap_err(), EngineError::AuthenticationFailed);
}

#[test]
fn encrypted_output_names() {
    assert_eq!(
        encrypted_output_name(Algorithms::AES, "notes.txt", "txt"),
        "notes.txt_encrypted.txt"
    );
    assert_eq!(encrypted_output_name(Algorithms::AES, "notes", ""), "notes_encrypted");
    assert_eq!(
        encrypted_output_name(Algorithms::ChaCha20, "notes.txt", "txt"),
        "notes.txt_encrypted.txt"
    );
    assert_eq!(encrypted_output_name(Algorithms::ChaCha20, "notes", ""), "notes_encrypted.txt");
}

#[test]
fn decrypted_output_names() {
    assert_eq!(decrypted_output_name(Algorithms::AES, "notes", "txt"), "notes_decrypted.txt");
    assert_eq!(decrypted_output_name(Algorithms::AES, "notes", ""), "notes_decrypted");
    assert_eq!(decrypted_output_name(Algorithms::ChaCha20, "notes", "txt"), "notes_decrypted.txt");
}

#[test]
fn algorithm_labels() {
    assert_eq!(Algorithms::AES.label(), "AES");
    assert_eq!(Algorithms::ChaCha20.label(), "ChaCha20");
}

#[test]
fn error_messages() {
    assert_eq!(EngineError::AuthenticationFailed.message(), "authentication failed");
    assert_eq!(
        EngineError::IoError(String::from("file missing")).message(),
        "input/output error: file missing"
    );
}

#[test]
fn aead_zero_credentials_known_answer() {
    // The fixed vector for the all-zero credential pair: the embedded
    // nonce, the four sealed bytes of b"test", then the 16-byte tag.
    let key = [0u8; 32];
    let nonce = [0u8; 12];
    let artifact = encrypt_bytes_with(b"test", Algorithms::AES, &key, &nonce).unwrap();
    let hex = encora::credentials::bytes_to_hex(&artifact);
    assert_eq!(hex, "000000000000000000000000bac23349c7cff73b6da71ad46cf30b1063f5f48d");
}
