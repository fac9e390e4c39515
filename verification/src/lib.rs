//! Fixed-size binary codec for confidential-transfer cryptographic objects.
//!
//! Every cryptographic value handled here — curve points, scalars, symmetric
//! ciphertexts, zero-knowledge proof transcripts — is stored and transmitted
//! as a named, fixed-width byte container with no padding, no length prefix
//! and no alignment requirement. Any byte pattern of the right width is a
//! structurally valid container value, and the all-zero pattern doubles as
//! the canonical "empty slot" sentinel.
//!
//! The containers themselves never interpret their bytes. Interpretation
//! happens only at the codec boundary: an infallible `encode` copies a rich
//! value's canonical serialization into the matching container, and a
//! fallible `decode` reconstructs the rich value, failing exactly when the
//! bytes do not form a valid one (for example a 32-byte string that is not
//! the canonical encoding of a curve point).

pub mod composite;
pub mod curve;
pub mod errors;
pub mod layout;
pub mod pod;
