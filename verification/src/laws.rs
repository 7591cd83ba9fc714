//! Laws that hold between the operations, proved from their contracts.

use crate::context::sign_outcome;
use crate::context::sign_refusal;
use crate::context::verify_spec;
use crate::error::Error;
use crate::keypair::derive_keypair_outcome;
use crate::keypair::derive_keypair_spec;
use crate::keypair::keypair_refusal;
use crate::keypair::public_key_of_spec;
use crate::keypair::secret_key_of_spec;
use crate::layout::lemma_halves_make_keypair;
use crate::layout::public_half;
use crate::layout::secret_half;
use crate::layout::SEED_LENGTH;
use crate::primitive::expanded_keypair;
use crate::primitive::fits_transcript;
use crate::primitive::keypair_decodes;
use crate::primitive::own_public_key;
use crate::primitive::public_key_decodes;
use crate::primitive::secret_key_decodes;
use vstd::prelude::*;

verus! {

/// Derivation is deterministic: whatever two derivations from one seed give,
/// they give the same, byte for byte.
pub proof fn lemma_derivation_is_deterministic(
    seed: Seq<u8>,
    first: Result<Seq<u8>, Error>,
    second: Result<Seq<u8>, Error>,
)
    requires
        derive_keypair_outcome(seed, first),
        derive_keypair_outcome(seed, second),
    ensures
        first == second,
{
}

/// Taking a keypair apart loses nothing: for every keypair that decodes,
/// its secret key followed by its public key is the keypair.
pub proof fn lemma_keypair_round_trip(keypair: Seq<u8>)
    requires
        keypair_decodes(keypair),
    ensures
        secret_key_of_spec(keypair) is Ok,
        public_key_of_spec(keypair) is Ok,
        secret_key_of_spec(keypair)->Ok_0 + public_key_of_spec(keypair)->Ok_0 == keypair,
{
    lemma_halves_make_keypair(keypair);
}

/// What a secret key signs, its own public key accepts.
///
/// For every secret key that decodes, with the public key that is its own,
/// every label and every message that fits a transcript: signing succeeds,
/// and whatever signature it gives, verifying it on the same message under
/// the same label and that public key gives `true`.
pub proof fn lemma_signature_verifies_under_own_public_key(
    label: Seq<u8>,
    public_key: Seq<u8>,
    secret_key: Seq<u8>,
    message: Seq<u8>,
    signed: Result<Seq<u8>, Error>,
)
    requires
        secret_key_decodes(secret_key),
        public_key_decodes(public_key),
        public_key == own_public_key(secret_key),
        fits_transcript(message),
        sign_outcome(label, public_key, secret_key, message, signed),
    ensures
        signed is Ok,
        verify_spec(label, signed->Ok_0, message, public_key),
{
    assert(sign_refusal(public_key, secret_key, message) is None);
}

/// A keypair derived from a seed signs what its own public key accepts.
///
/// For every seed of 32 bytes, every label and every message that fits a
/// transcript: the derivation succeeds, both halves of the keypair are
/// handed out, signing with them succeeds, and whatever signature it gives,
/// verifying it on the same message under the same label and the keypair's
/// public key gives `true`.
pub proof fn lemma_own_signature_verifies(
    label: Seq<u8>,
    seed: Seq<u8>,
    message: Seq<u8>,
    derived: Result<Seq<u8>, Error>,
    signed: Result<Seq<u8>, Error>,
)
    requires
        seed.len() == SEED_LENGTH,
        fits_transcript(message),
        derive_keypair_outcome(seed, derived),
        derived is Ok ==> sign_outcome(
            label,
            public_key_of_spec(derived->Ok_0)->Ok_0,
            secret_key_of_spec(derived->Ok_0)->Ok_0,
            message,
            signed,
        ),
    ensures
        derived is Ok,
        public_key_of_spec(derived->Ok_0) is Ok,
        secret_key_of_spec(derived->Ok_0) is Ok,
        signed is Ok,
        verify_spec(label, signed->Ok_0, message, public_key_of_spec(derived->Ok_0)->Ok_0),
{
    let keypair = derived->Ok_0;
    assert(derive_keypair_spec(seed) == Ok::<Seq<u8>, Error>(expanded_keypair(seed)));
    assert(keypair == expanded_keypair(seed));
    assert(keypair_refusal(keypair) is None);
    lemma_halves_make_keypair(keypair);
    lemma_signature_verifies_under_own_public_key(
        label,
        public_half(keypair),
        secret_half(keypair),
        message,
        signed,
    );
}

} // verus!
