//! Request identifiers.
//!
//! Every funds-transfer attempt is tagged with a freshly drawn identifier
//! that correlates the send request with the acknowledgment of its receipt.
//! Identifiers are drawn from the process's random number generator so
//! that concurrent attempts do not collide.

use vstd::prelude::*;

verus! {

/// Length in bytes of a request identifier.
pub const UID_LEN: usize = 16;

/// A unique identifier of one funds-transfer attempt.
#[derive(Clone, Copy, Debug, PartialEq, Eq)]
pub struct Uid {
    pub bytes: [u8; 16],
}

/// Relies on rand::random: an array of bytes drawn from the thread-local
/// random number generator. Nothing is promised of the drawn values.
#[verifier::external_body]
fn random_bytes() -> (r: [u8; 16])
{
    rand::random::<[u8; 16]>()
}

/// Draw a fresh request identifier.
pub fn gen_uid() -> (u: Uid) {
    Uid { bytes: random_bytes() }
}

} // verus!
