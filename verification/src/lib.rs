//! Encora: a file-level authenticated-encryption engine.
//!
//! Two cipher backends share one credential shape (a 32-byte key and a
//! 12-byte nonce, carried as lowercase hex strings):
//!
//! * [`aead`] — AES-256-GCM, authenticated: a 16-byte tag is appended to the
//!   ciphertext and verified before any plaintext is returned.
//! * [`stream`] — ChaCha20, a plain keystream XOR: the output has the length
//!   of the input and carries no integrity protection.
//!
//! The [`engine`] module wraps backend output into the on-disk artifact
//! layout, derives output file names, and validates caller-supplied
//! credentials. The [`ui`] module holds the interactive front end's state
//! machine as pure transitions; performing the file dialogs, clipboard and
//! file reads it asks for is the caller's business.

pub mod aead;
pub mod credentials;
pub mod engine;
pub mod errors;
pub mod rng;
pub mod stream;
pub mod ui;
