//! The cryptographic core of a CTAP2 client: establishing a shared secret
//! with an authenticator, encrypting PIN material under it, using the PIN/UV
//! auth token, and verifying assertion signatures.

pub mod cose;
pub mod crypto;
pub mod error;
pub mod primitives;

pub use cose::{CoseKey, P256Key};
pub use crypto::{verify_signature, CbcCipher, PinToken, SharedSecret};
pub use error::{CborErrorCode, FidoError, FidoErrorKind, FidoResult};
