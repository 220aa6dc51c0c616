//! Construction of V4 signed URLs for objects held in a cloud object store,
//! together with the canonical-request, credential-scope and percent-encoding
//! rules that the scheme prescribes.

use vstd::prelude::*;

pub mod encoding;
pub mod object;
pub mod signing;
pub mod timestamp;
pub mod urls;

verus! {

/// Longest validity of a signed URL, in seconds (seven days).
pub const MAX_DURATION: u32 = 604800;

/// The failures that the signing core can report.
#[derive(Debug, Clone, Copy, PartialEq, Eq, Structural)]
pub enum Error {
    /// The requested validity duration lies outside the allowed window.
    Validation,
    /// The private key material could not be parsed as an RSA key.
    KeyParse,
    /// The signing primitive itself failed.
    Signing,
}

/// A duration is acceptable when it is positive and at most seven days.
pub open spec fn valid_duration(duration: u32) -> bool {
    0 < duration <= MAX_DURATION
}

} // verus!
