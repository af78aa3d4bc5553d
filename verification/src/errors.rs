use vstd::prelude::*;

verus! {

/// The engine's error taxonomy. Every failure of a backend or of the
/// artifact codec surfaces to the caller as one of these; the engine never
/// retries, and a failed decryption never yields partial plaintext.
#[derive(Debug, Clone, PartialEq, Eq)]
pub enum EngineError {
    /// The key handed to a backend was not exactly 32 bytes long.
    InvalidKeyLength,
    /// The nonce handed to a backend was not exactly 12 bytes long.
    InvalidNonceLength,
    /// A credential string was not hex of the required length.
    InvalidCredentialEncoding,
    /// The authentication tag did not verify: wrong credentials, or a
    /// corrupted or truncated artifact.
    AuthenticationFailed,
    /// Reading or writing a file failed; carries the underlying cause.
    IoError(String),
    /// The cipher backend itself failed.
    CipherError,
}

impl EngineError {
    /// What [`EngineError::message`] returns for each variant.
    pub open spec fn message_spec(&self) -> Seq<char> {
        match self {
            EngineError::InvalidKeyLength => "invalid key length"@,
            EngineError::InvalidNonceLength => "invalid nonce length"@,
            EngineError::InvalidCredentialEncoding => "invalid key or nonce encoding"@,
            EngineError::AuthenticationFailed => "authentication failed"@,
            EngineError::IoError(cause) => "input/output error: "@ + cause@,
            EngineError::CipherError => "cipher failure"@,
        }
    }

    /// The user-facing description of this error.
    pub fn message(&self) -> (r: String)
        ensures
            r@ == self.message_spec(),
    {
        match self {
            EngineError::InvalidKeyLength => String::from_str("invalid key length"),
            EngineError::InvalidNonceLength => String::from_str("invalid nonce length"),
            EngineError::InvalidCredentialEncoding => String::from_str(
                "invalid key or nonce encoding",
            ),
            EngineError::AuthenticationFailed => String::from_str("authentication failed"),
            EngineError::IoError(cause) => String::from_str("input/output error: ").concat(
                cause.as_str(),
            ),
            EngineError::CipherError => String::from_str("cipher failure"),
        }
    }
}

} // verus!
