//! Keypairs: derived from a seed or decoded from 96 bytes, and taken apart
//! into their secret and public halves.

use crate::error::Argument;
use crate::error::Error;
use crate::layout::bytes_equal;
use crate::layout::copy_range;
use crate::layout::public_half;
use crate::layout::secret_half;
use crate::layout::KEYPAIR_LENGTH;
use crate::layout::SECRET_KEY_LENGTH;
use crate::layout::SEED_LENGTH;
use crate::primitive::check_keypair;
use crate::primitive::expand_seed;
use crate::primitive::expanded_keypair;
use crate::primitive::keypair_decodes;
use crate::primitive::keypair_is_consistent;
use crate::primitive::public_key_decodes;
use crate::primitive::public_key_of_secret;
use crate::primitive::secret_key_decodes;
use vstd::prelude::*;
use vstd::slice::slice_subrange;

verus! {

/// A keypair that decodes: 96 bytes, a secret key followed by a public key.
///
/// Decoding trusts the bytes: it does not ask that the public half be the
/// public key of the secret half. A keypair put together from halves that do
/// not belong together is accepted here, and what is signed with it verifies
/// under neither public key. `is_consistent` tells such a keypair from one
/// whose halves belong together.
pub struct Keypair {
    bytes: Vec<u8>,
}

impl View for Keypair {
    type V = Seq<u8>;

    /// The 96 bytes of the keypair.
    closed spec fn view(&self) -> Seq<u8> {
        self.bytes@
    }
}

impl Keypair {
    #[verifier::type_invariant]
    spec fn decodes(self) -> bool {
        keypair_decodes(self.bytes@)
    }

    /// The 96 bytes of the keypair.
    pub fn to_bytes(&self) -> (out: Vec<u8>)
        ensures
            out@ == self@,
            keypair_decodes(self@),
    {
        proof {
            use_type_invariant(self);
        }
        let out = copy_range(self.bytes.as_slice(), 0, KEYPAIR_LENGTH);
        assert(out@ =~= self.bytes@);
        out
    }

    /// The 96 bytes of the keypair, moved out of it.
    pub fn into_bytes(self) -> (out: Vec<u8>)
        ensures
            out@ == self@,
            keypair_decodes(self@),
    {
        proof {
            use_type_invariant(&self);
        }
        self.bytes
    }

    /// The secret key: the first 64 bytes.
    pub fn secret_key(&self) -> (out: Vec<u8>)
        ensures
            out@ == secret_half(self@),
            secret_key_decodes(out@),
            keypair_decodes(self@),
    {
        proof {
            use_type_invariant(self);
        }
        copy_range(self.bytes.as_slice(), 0, SECRET_KEY_LENGTH)
    }

    /// The public key: the last 32 bytes.
    pub fn public_key(&self) -> (out: Vec<u8>)
        ensures
            out@ == public_half(self@),
            public_key_decodes(out@),
            keypair_decodes(self@),
    {
        proof {
            use_type_invariant(self);
        }
        copy_range(self.bytes.as_slice(), SECRET_KEY_LENGTH, KEYPAIR_LENGTH)
    }

    /// Whether the halves belong together: whether the public half is the
    /// public key of the secret half. A keypair derived from a seed is
    /// consistent; one decoded from bytes need not be.
    pub fn is_consistent(&self) -> (consistent: bool)
        ensures
            consistent == keypair_is_consistent(self@),
    {
        proof {
            use_type_invariant(self);
        }
        let secret = slice_subrange(self.bytes.as_slice(), 0, SECRET_KEY_LENGTH);
        let public = slice_subrange(self.bytes.as_slice(), SECRET_KEY_LENGTH, KEYPAIR_LENGTH);
        let own = public_key_of_secret(secret);
        bytes_equal(public, own.as_slice())
    }
}

/// A result as contracts speak of it: the bytes of the value, or the error.
pub open spec fn bytes_of(r: Result<Vec<u8>, Error>) -> Result<Seq<u8>, Error> {
    match r {
        Ok(bytes) => Ok(bytes@),
        Err(e) => Err(e),
    }
}

/// A result as contracts speak of it: the bytes of the keypair, or the error.
pub open spec fn keypair_bytes_of(r: Result<Keypair, Error>) -> Result<Seq<u8>, Error> {
    match r {
        Ok(keypair) => Ok(keypair@),
        Err(e) => Err(e),
    }
}

/// What deriving a keypair from `seed` gives: the expansion of a seed of 32
/// bytes, and a refusal of any other.
pub open spec fn derive_keypair_spec(seed: Seq<u8>) -> Result<Seq<u8>, Error> {
    if seed.len() != SEED_LENGTH {
        Err(Error::InvalidLength(Argument::Seed))
    } else {
        Ok(expanded_keypair(seed))
    }
}

/// What a derivation from `seed` may give: what `derive_keypair_spec` says,
/// and in it a keypair that decodes and whose halves belong together.
pub open spec fn derive_keypair_outcome(seed: Seq<u8>, outcome: Result<Seq<u8>, Error>) -> bool {
    &&& outcome == derive_keypair_spec(seed)
    &&& outcome matches Ok(keypair) ==> keypair_decodes(keypair) && keypair_is_consistent(keypair)
}

/// Why `keypair` is refused, if it is: for its length first, then for what
/// it holds.
pub open spec fn keypair_refusal(keypair: Seq<u8>) -> Option<Error> {
    if keypair.len() != KEYPAIR_LENGTH {
        Some(Error::InvalidLength(Argument::Keypair))
    } else if !keypair_decodes(keypair) {
        Some(Error::InvalidEncoding(Argument::Keypair))
    } else {
        None
    }
}

/// What decoding `keypair` gives: the same bytes, or the refusal.
pub open spec fn decode_keypair_spec(keypair: Seq<u8>) -> Result<Seq<u8>, Error> {
    match keypair_refusal(keypair) {
        Some(e) => Err(e),
        None => Ok(keypair),
    }
}

/// What asking `keypair` for its public key gives: its last 32 bytes, or the
/// refusal.
pub open spec fn public_key_of_spec(keypair: Seq<u8>) -> Result<Seq<u8>, Error> {
    match keypair_refusal(keypair) {
        Some(e) => Err(e),
        None => Ok(public_half(keypair)),
    }
}

/// What asking `keypair` for its secret key gives: its first 64 bytes, or
/// the refusal.
pub open spec fn secret_key_of_spec(keypair: Seq<u8>) -> Result<Seq<u8>, Error> {
    match keypair_refusal(keypair) {
        Some(e) => Err(e),
        None => Ok(secret_half(keypair)),
    }
}

/// Expands a 32-byte seed into its keypair, in the Ed25519-compatible mode:
/// the same seed gives the same keypair, always.
///
/// A seed of another length is refused as `InvalidLength`. A rejection by
/// the primitive would come back as `KeyExpansionFailure`; the expansion
/// used here rejects no seed of 32 bytes, so no input brings that error.
pub fn create_from_seed(seed: &[u8]) -> (r: Result<Keypair, Error>)
    ensures
        derive_keypair_outcome(seed@, keypair_bytes_of(r)),
{
    if seed.len() != SEED_LENGTH {
        return Err(Error::InvalidLength(Argument::Seed));
    }
    match expand_seed(seed) {
        Ok(bytes) => Ok(Keypair { bytes }),
        Err(_) => Err(Error::KeyExpansionFailure),
    }
}

/// Decodes 96 bytes as a keypair.
///
/// Bytes of another length are refused as `InvalidLength`, and 96 bytes
/// whose halves do not both decode as `InvalidEncoding`.
pub fn create_from_pair(pair: &[u8]) -> (r: Result<Keypair, Error>)
    ensures
        keypair_bytes_of(r) == decode_keypair_spec(pair@),
{
    if pair.len() != KEYPAIR_LENGTH {
        return Err(Error::InvalidLength(Argument::Keypair));
    }
    match check_keypair(pair) {
        Ok(_) => {
            let bytes = copy_range(pair, 0, KEYPAIR_LENGTH);
            assert(bytes@ =~= pair@);
            Ok(Keypair { bytes })
        },
        Err(_) => Err(Error::InvalidEncoding(Argument::Keypair)),
    }
}

/// The 96-byte keypair of a 32-byte seed.
pub fn derive_keypair(seed: &[u8]) -> (r: Result<Vec<u8>, Error>)
    ensures
        derive_keypair_outcome(seed@, bytes_of(r)),
        seed@.len() == SEED_LENGTH ==> r is Ok,
        seed@.len() != SEED_LENGTH ==> r == Err::<Vec<u8>, Error>(
            Error::InvalidLength(Argument::Seed),
        ),
{
    match create_from_seed(seed) {
        Ok(keypair) => Ok(keypair.into_bytes()),
        Err(e) => Err(e),
    }
}

/// The public key of a 96-byte keypair: its last 32 bytes, once the keypair
/// has decoded.
pub fn public_key_of(keypair: &[u8]) -> (r: Result<Vec<u8>, Error>)
    ensures
        bytes_of(r) == public_key_of_spec(keypair@),
        keypair@.len() != KEYPAIR_LENGTH ==> r == Err::<Vec<u8>, Error>(
            Error::InvalidLength(Argument::Keypair),
        ),
{
    match create_from_pair(keypair) {
        Ok(decoded) => Ok(decoded.public_key()),
        Err(e) => Err(e),
    }
}

/// The secret key of a 96-byte keypair: its first 64 bytes, once the keypair
/// has decoded.
pub fn secret_key_of(keypair: &[u8]) -> (r: Result<Vec<u8>, Error>)
    ensures
        bytes_of(r) == secret_key_of_spec(keypair@),
        keypair@.len() != KEYPAIR_LENGTH ==> r == Err::<Vec<u8>, Error>(
            Error::InvalidLength(Argument::Keypair),
        ),
{
    match create_from_pair(keypair) {
        Ok(decoded) => Ok(decoded.secret_key()),
        Err(e) => Err(e),
    }
}

} // verus!
