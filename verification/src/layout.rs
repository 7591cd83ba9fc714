//! Byte layouts: how long each value is, where the halves of a keypair lie,
//! and which 32 bytes spell a scalar of the group.

use vstd::prelude::*;

verus! {

/// Bytes in a seed.
pub const SEED_LENGTH: usize = 32;

/// Bytes in a public key: one compressed group element.
pub const PUBLIC_KEY_LENGTH: usize = 32;

/// Bytes in a secret key: a scalar, then the nonce seed.
pub const SECRET_KEY_LENGTH: usize = 64;

/// Bytes in a keypair: the secret key, then the public key.
pub const KEYPAIR_LENGTH: usize = 96;

/// Bytes in a signature: the commitment, then the response scalar.
pub const SIGNATURE_LENGTH: usize = 64;

/// Bytes in a scalar.
pub const SCALAR_LENGTH: usize = 32;

/// The number that `bytes` spell, least significant byte first.
pub open spec fn le_value(bytes: Seq<u8>) -> nat
    decreases bytes.len(),
{
    if bytes.len() == 0 {
        0
    } else {
        bytes[0] as nat + 256 * le_value(bytes.drop_first())
    }
}

/// The order of the group: 2^252 + 27742317777372353535851937790883648493.
pub open spec fn group_order() -> nat {
    0x1000000000000000000000000000000014def9dea2f79cd65812631a5cf5d3ednat
}

/// 32 bytes that spell a number below the group order.
pub open spec fn is_canonical_scalar(bytes: Seq<u8>) -> bool {
    bytes.len() == SCALAR_LENGTH && le_value(bytes) < group_order()
}

/// The secret key of a 96-byte keypair: its first 64 bytes.
pub open spec fn secret_half(keypair: Seq<u8>) -> Seq<u8> {
    keypair.subrange(0, SECRET_KEY_LENGTH as int)
}

/// The public key of a 96-byte keypair: its last 32 bytes.
pub open spec fn public_half(keypair: Seq<u8>) -> Seq<u8> {
    keypair.subrange(SECRET_KEY_LENGTH as int, KEYPAIR_LENGTH as int)
}

/// The scalar of a 64-byte secret key: its first 32 bytes.
pub open spec fn secret_scalar(secret_key: Seq<u8>) -> Seq<u8> {
    secret_key.subrange(0, SCALAR_LENGTH as int)
}

/// Whether the last byte of a 64-byte signature carries the marker, its
/// highest bit, that tells these signatures from Ed25519 ones.
pub open spec fn is_marked(signature: Seq<u8>) -> bool {
    signature[SIGNATURE_LENGTH - 1] >= 128
}

/// The response scalar of a marked 64-byte signature: its last 32 bytes with
/// the marker taken off.
pub open spec fn response_scalar(signature: Seq<u8>) -> Seq<u8> {
    signature.subrange(SCALAR_LENGTH as int, SIGNATURE_LENGTH as int).update(
        SCALAR_LENGTH - 1,
        (signature[SIGNATURE_LENGTH - 1] - 128) as u8,
    )
}

/// A keypair is its secret half followed by its public half.
pub proof fn lemma_halves_make_keypair(keypair: Seq<u8>)
    requires
        keypair.len() == KEYPAIR_LENGTH,
    ensures
        secret_half(keypair).len() == SECRET_KEY_LENGTH,
        public_half(keypair).len() == PUBLIC_KEY_LENGTH,
        secret_half(keypair) + public_half(keypair) == keypair,
{
    assert(secret_half(keypair) + public_half(keypair) =~= keypair);
}

/// A copy of the bytes of `bytes` from index `from` up to, not including,
/// index `to`.
pub fn copy_range(bytes: &[u8], from: usize, to: usize) -> (out: Vec<u8>)
    requires
        from <= to <= bytes@.len(),
    ensures
        out@ == bytes@.subrange(from as int, to as int),
{
    let mut out: Vec<u8> = Vec::with_capacity(to - from);
    let mut i: usize = from;
    while i < to
        invariant
            from <= i <= to <= bytes@.len(),
            out@ == bytes@.subrange(from as int, i as int),
        decreases to - i,
    {
        out.push(bytes[i]);
        i = i + 1;
    }
    out
}

/// Whether `a` and `b` hold the same bytes.
pub fn bytes_equal(a: &[u8], b: &[u8]) -> (equal: bool)
    ensures
        equal == (a@ == b@),
{
    if a.len() != b.len() {
        return false;
    }
    let mut i: usize = 0;
    while i < a.len()
        invariant
            a@.len() == b@.len(),
            i <= a@.len(),
            a@.subrange(0, i as int) == b@.subrange(0, i as int),
        decreases a@.len() - i,
    {
        if a[i] != b[i] {
            return false;
        }
        assert(a@.subrange(0, i + 1) =~= a@.subrange(0, i as int).push(a@[i as int]));
        assert(b@.subrange(0, i + 1) =~= b@.subrange(0, i as int).push(b@[i as int]));
        i = i + 1;
    }
    assert(a@ =~= a@.subrange(0, i as int));
    assert(b@ =~= b@.subrange(0, i as int));
    true
}

} // verus!
