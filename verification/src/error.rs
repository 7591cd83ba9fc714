//! The ways in which an operation refuses its input.

use vstd::prelude::*;

verus! {

/// The argument of an operation that a refusal is about.
#[derive(Clone, Copy, Debug, PartialEq, Eq, Structural)]
pub enum Argument {
    /// The 32-byte seed a keypair is derived from.
    Seed,
    /// A 32-byte public key.
    PublicKey,
    /// A 64-byte secret key.
    SecretKey,
    /// A 96-byte keypair.
    Keypair,
    /// The message to sign.
    Message,
    /// The signing-context label.
    Label,
}

/// Why an operation refused its input.
#[derive(Clone, Copy, Debug, PartialEq, Eq, Structural)]
pub enum Error {
    /// The argument has the wrong number of bytes.
    InvalidLength(Argument),
    /// The argument has the right number of bytes but is not the encoding of
    /// a scalar, of a group element, or of a keypair.
    InvalidEncoding(Argument),
    /// The primitive rejected a seed of the right length.
    KeyExpansionFailure,
}

} // verus!
