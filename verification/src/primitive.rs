//! The trusted boundary: everything this library has from `schnorrkel`.
//!
//! Verus reads none of the group arithmetic, of the hashing or of the codecs
//! behind the functions of this file. It believes what their contracts say.
//! Each contract is stated over byte sequences. What a call returns is
//! written out where a few lines can say it, and stands behind a name where
//! saying it would take the whole algorithm.

use crate::layout::is_canonical_scalar;
use crate::layout::is_marked;
use crate::layout::public_half;
use crate::layout::response_scalar;
use crate::layout::secret_half;
use crate::layout::secret_scalar;
use crate::layout::KEYPAIR_LENGTH;
use crate::layout::PUBLIC_KEY_LENGTH;
use crate::layout::SECRET_KEY_LENGTH;
use crate::layout::SEED_LENGTH;
use crate::layout::SIGNATURE_LENGTH;
use schnorrkel::context::signing_context;
use schnorrkel::ExpansionMode;
use schnorrkel::MiniSecretKey;
use schnorrkel::PublicKey;
use schnorrkel::SecretKey;
use schnorrkel::Signature;
use schnorrkel::SignatureError;
use vstd::prelude::*;

verus! {

/// The error of `schnorrkel`, carried from a failed call to the place that
/// turns it into an error of this library. Nothing is read from it.
#[verifier::external_type_specification]
#[verifier::external_body]
pub struct ExSignatureError(SignatureError);

/// Whether 32 bytes are the encoding of a group element: whether
/// `schnorrkel::PublicKey::from_bytes` accepts them.
pub uninterp spec fn ristretto_decompresses(bytes: Seq<u8>) -> bool;

/// The 96-byte keypair that `schnorrkel::MiniSecretKey::expand_to_keypair`
/// makes of a 32-byte seed in the mode `ExpansionMode::Ed25519`, as
/// `schnorrkel::Keypair::to_bytes` writes it.
pub uninterp spec fn expanded_keypair(seed: Seq<u8>) -> Seq<u8>;

/// The 32 bytes of the public key that `schnorrkel::SecretKey::to_public`
/// computes of a decoded secret key: its scalar times the base point,
/// compressed.
pub uninterp spec fn own_public_key(secret_key: Seq<u8>) -> Seq<u8>;

/// Whether `schnorrkel::PublicKey::verify` accepts a decoded signature for a
/// decoded public key on the transcript of a label and a message.
pub uninterp spec fn schnorr_accepts(
    label: Seq<u8>,
    message: Seq<u8>,
    public_key: Seq<u8>,
    signature: Seq<u8>,
) -> bool;

/// The longest label or message, in bytes, that a transcript takes in: it
/// writes the length down in 32 bits.
pub const TRANSCRIPT_LIMIT: u32 = 0xffff_ffff;

/// A label or a message that a transcript can take in.
pub open spec fn fits_transcript(bytes: Seq<u8>) -> bool {
    bytes.len() <= TRANSCRIPT_LIMIT
}

/// The bytes that decode as a secret key: a canonical scalar, then any 32
/// bytes as the nonce seed.
pub open spec fn secret_key_decodes(bytes: Seq<u8>) -> bool {
    bytes.len() == SECRET_KEY_LENGTH && is_canonical_scalar(secret_scalar(bytes))
}

/// The bytes that decode as a public key: 32 bytes that encode a group
/// element.
pub open spec fn public_key_decodes(bytes: Seq<u8>) -> bool {
    bytes.len() == PUBLIC_KEY_LENGTH && ristretto_decompresses(bytes)
}

/// The bytes that decode as a keypair: a secret key, then a public key.
/// Nothing asks that the public key be the one of the secret key.
pub open spec fn keypair_decodes(bytes: Seq<u8>) -> bool {
    &&& bytes.len() == KEYPAIR_LENGTH
    &&& secret_key_decodes(secret_half(bytes))
    &&& public_key_decodes(public_half(bytes))
}

/// The bytes that decode as a signature: any 32 bytes as the commitment,
/// then a canonical scalar under the marker.
pub open spec fn signature_decodes(bytes: Seq<u8>) -> bool {
    &&& bytes.len() == SIGNATURE_LENGTH
    &&& is_marked(bytes)
    &&& is_canonical_scalar(response_scalar(bytes))
}

/// What verification accepts: a signature and a public key that both decode
/// and for which the verification equation holds on the transcript of the
/// label and the message.
pub open spec fn verifies(
    label: Seq<u8>,
    message: Seq<u8>,
    public_key: Seq<u8>,
    signature: Seq<u8>,
) -> bool {
    &&& signature_decodes(signature)
    &&& public_key_decodes(public_key)
    &&& schnorr_accepts(label, message, public_key, signature)
}

/// A keypair whose halves belong together: the public half is the public
/// key of the secret half.
pub open spec fn keypair_is_consistent(bytes: Seq<u8>) -> bool {
    public_half(bytes) == own_public_key(secret_half(bytes))
}

/// `schnorrkel::MiniSecretKey::from_bytes`, then `expand_to_keypair` in the
/// mode `ExpansionMode::Ed25519`, then `schnorrkel::Keypair::to_bytes`.
///
/// Believed: only the length of the seed can make this fail; the keypair is
/// a function of the seed alone (a SHA-512 digest, its first half clamped
/// and divided by the cofactor as the scalar, its second half as the nonce
/// seed); its public half is the public key that `to_public` computes of its
/// secret half; and it decodes as a keypair, because that scalar lies below
/// the group order and the public key was just compressed.
#[verifier::external_body]
pub(crate) fn expand_seed(seed: &[u8]) -> (r: Result<Vec<u8>, SignatureError>)
    ensures
        r is Ok <==> seed@.len() == SEED_LENGTH,
        r matches Ok(keypair) ==> keypair@ == expanded_keypair(seed@),
        r matches Ok(keypair) ==> keypair_decodes(keypair@),
        r matches Ok(keypair) ==> keypair_is_consistent(keypair@),
{
    let mini = MiniSecretKey::from_bytes(seed)?;
    Ok(mini.expand_to_keypair(ExpansionMode::Ed25519).to_bytes().to_vec())
}

/// `schnorrkel::SecretKey::from_bytes`, the decoded key dropped.
///
/// Believed: it accepts 64 bytes whose first 32 spell a number below the
/// group order, and nothing else.
#[verifier::external_body]
pub(crate) fn check_secret_key(bytes: &[u8]) -> (r: Result<(), SignatureError>)
    ensures
        r is Ok <==> secret_key_decodes(bytes@),
{
    match SecretKey::from_bytes(bytes) {
        Ok(_) => Ok(()),
        Err(e) => Err(e),
    }
}

/// `schnorrkel::PublicKey::from_bytes`, the decoded key dropped.
///
/// Believed: it accepts 32 bytes that decompress to a group element, and
/// nothing else; whether they do is a function of the bytes alone.
#[verifier::external_body]
pub(crate) fn check_public_key(bytes: &[u8]) -> (r: Result<(), SignatureError>)
    ensures
        r is Ok <==> (bytes@.len() == PUBLIC_KEY_LENGTH && ristretto_decompresses(bytes@)),
{
    match PublicKey::from_bytes(bytes) {
        Ok(_) => Ok(()),
        Err(e) => Err(e),
    }
}

/// `schnorrkel::Keypair::from_bytes`, the decoded keypair dropped.
///
/// Believed: it accepts 96 bytes whose first 64 decode as a secret key and
/// whose last 32 decode as a public key, and nothing else. It does not
/// compare the public key with the one that the secret key has.
#[verifier::external_body]
pub(crate) fn check_keypair(bytes: &[u8]) -> (r: Result<(), SignatureError>)
    ensures
        r is Ok <==> keypair_decodes(bytes@),
{
    match schnorrkel::Keypair::from_bytes(bytes) {
        Ok(_) => Ok(()),
        Err(e) => Err(e),
    }
}

/// `schnorrkel::SecretKey::from_bytes`, then `schnorrkel::SecretKey::to_public`,
/// the public key written with `schnorrkel::PublicKey::to_bytes`.
///
/// Believed: the public key is a function of the secret key alone, and has
/// 32 bytes. Left out by `requires`: a secret key that does not decode.
#[verifier::external_body]
pub(crate) fn public_key_of_secret(secret_key: &[u8]) -> (public_key: Vec<u8>)
    requires
        secret_key_decodes(secret_key@),
    ensures
        public_key@ == own_public_key(secret_key@),
        public_key@.len() == PUBLIC_KEY_LENGTH,
{
    SecretKey::from_bytes(secret_key).unwrap().to_public().to_bytes().to_vec()
}

/// `schnorrkel::SecretKey::sign` on the transcript that
/// `schnorrkel::context::signing_context` and `SigningContext::bytes` make
/// of the label and the message, the signature written with
/// `schnorrkel::Signature::to_bytes`.
///
/// The nonce takes in fresh randomness, so two calls on the same input may
/// differ, and the result has no name. Believed of every outcome: it decodes
/// as a signature; and where the public key is the one that `to_public`
/// computes of the secret key, verification under that public key, label and
/// message accepts it (with response `s = k * key + r` and commitment
/// `R = r * B`, the verifier's `s * B - k * A` is `R` once `A = key * B`).
/// Left out by `requires`: keys that do not decode, and a label or message
/// too long for the transcript, on which the call panics.
#[verifier::external_body]
pub(crate) fn sign_transcript(
    label: &[u8],
    message: &[u8],
    secret_key: &[u8],
    public_key: &[u8],
) -> (signature: Vec<u8>)
    requires
        fits_transcript(label@),
        fits_transcript(message@),
        secret_key_decodes(secret_key@),
        public_key_decodes(public_key@),
    ensures
        signature_decodes(signature@),
        public_key@ == own_public_key(secret_key@) ==> schnorr_accepts(
            label@,
            message@,
            public_key@,
            signature@,
        ),
{
    let secret = SecretKey::from_bytes(secret_key).unwrap();
    let public = PublicKey::from_bytes(public_key).unwrap();
    let transcript = signing_context(label).bytes(message);
    secret.sign(transcript, &public).to_bytes().to_vec()
}

/// `schnorrkel::Signature::from_bytes` and `schnorrkel::PublicKey::from_bytes`,
/// then `schnorrkel::PublicKey::verify` on the transcript that
/// `schnorrkel::context::signing_context` and `SigningContext::bytes` make
/// of the label and the message.
///
/// Believed: it accepts where both decode and the verification equation
/// holds, and nothing else; a signature decodes where it has 64 bytes, the
/// marker, and a canonical scalar under it; whether the equation holds is a
/// function of label, message, public key and signature alone. Left out by
/// `requires`: a label or message too long for the transcript, on which the
/// call panics.
#[verifier::external_body]
pub(crate) fn verify_transcript(
    label: &[u8],
    message: &[u8],
    public_key: &[u8],
    signature: &[u8],
) -> (r: Result<(), SignatureError>)
    requires
        fits_transcript(label@),
        fits_transcript(message@),
    ensures
        r is Ok <==> verifies(label@, message@, public_key@, signature@),
{
    let signature = Signature::from_bytes(signature)?;
    let public = PublicKey::from_bytes(public_key)?;
    public.verify(signing_context(label).bytes(message), &signature)
}

} // verus!
