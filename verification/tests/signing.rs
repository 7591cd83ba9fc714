use sr25519_bizinikiwi::context::sign;
use sr25519_bizinikiwi::context::verify;
use sr25519_bizinikiwi::context::SignatureContext;
use sr25519_bizinikiwi::keypair::derive_keypair;
use sr25519_bizinikiwi::keypair::public_key_of;
use sr25519_bizinikiwi::keypair::secret_key_of;
use sr25519_bizinikiwi::layout::SIGNATURE_LENGTH;
use sr25519_bizinikiwi::Argument;
use sr25519_bizinikiwi::Error;

/// A signature of `b"test"` under the label `bizinikiwi`, by the keypair of
/// the seed of 32 zero bytes.
const ZERO_SEED_SIGNATURE: [u8; 64] = [
    48, 74, 91, 250, 26, 95, 153, 235, 212, 122, 155, 238, 75, 115, 150, 193, 116, 133, 63, 67,
    20, 250, 225, 226, 250, 170, 209, 131, 182, 221, 155, 105, 181, 134, 166, 5, 157, 117, 31, 58,
    195, 163, 201, 115, 128, 140, 85, 22, 58, 47, 127, 162, 137, 245, 48, 80, 144, 55, 105, 225,
    54, 140, 43, 141,
];

/// The group order, least significant byte first.
const GROUP_ORDER: [u8; 32] = [
    237, 211, 245, 92, 26, 99, 18, 88, 214, 156, 247, 162, 222, 249, 222, 20, 0, 0, 0, 0, 0, 0, 0,
    0, 0, 0, 0, 0, 0, 0, 0, 16,
];

fn keys_of(seed: &[u8; 32]) -> (Vec<u8>, Vec<u8>) {
    let keypair = derive_keypair(seed).unwrap();
    (public_key_of(&keypair).unwrap(), secret_key_of(&keypair).unwrap())
}

#[test]
fn signature_has_64_bytes_and_the_marker() {
    let (public, secret) = keys_of(&[0u8; 32]);
    let signature = sign(&public, &secret, b"test").unwrap();
    assert_eq!(SIGNATURE_LENGTH, 64);
    assert_eq!(SIGNATURE_LENGTH, schnorrkel::SIGNATURE_LENGTH);
    assert_eq!(signature.len(), 64);
    assert!(signature[63] >= 128);
    assert!(schnorrkel::Signature::from_bytes(&signature).is_ok());
}

#[test]
fn own_signature_verifies() {
    let messages: [&[u8]; 5] = [b"", b"test", b"a", &[0u8; 1000], &[255u8; 70_000]];
    for byte in [0u8, 1, 2, 99, 255] {
        let (public, secret) = keys_of(&[byte; 32]);
        for message in messages {
            let signature = sign(&public, &secret, message).unwrap();
            assert!(verify(&signature, message, &public));
        }
    }
}

#[test]
fn known_signature_verifies() {
    let (public, _) = keys_of(&[0u8; 32]);
    assert!(verify(&ZERO_SEED_SIGNATURE, b"test", &public));
}

#[test]
fn known_signature_fails_on_another_message() {
    let (public, _) = keys_of(&[0u8; 32]);
    assert!(!verify(&ZERO_SEED_SIGNATURE, b"Test", &public));
    assert!(!verify(&ZERO_SEED_SIGNATURE, b"", &public));
    assert!(!verify(&ZERO_SEED_SIGNATURE, b"test ", &public));
}

#[test]
fn known_signature_fails_under_another_key() {
    let (other, _) = keys_of(&[1u8; 32]);
    assert!(!verify(&ZERO_SEED_SIGNATURE, b"test", &other));
}

#[test]
fn signing_twice_gives_two_signatures_that_both_verify() {
    let (public, secret) = keys_of(&[0u8; 32]);
    let first = sign(&public, &secret, b"test").unwrap();
    let second = sign(&public, &secret, b"test").unwrap();
    assert!(verify(&first, b"test", &public));
    assert!(verify(&second, b"test", &public));
    assert_ne!(first, second);
    assert_ne!(first, ZERO_SEED_SIGNATURE.to_vec());
}

#[test]
fn any_flipped_bit_of_the_message_fails() {
    let (public, secret) = keys_of(&[7u8; 32]);
    let message = b"pay 10 to bob".to_vec();
    let signature = sign(&public, &secret, &message).unwrap();
    assert!(verify(&signature, &message, &public));
    for index in 0..message.len() {
        for bit in 0..8 {
            let mut flipped = message.clone();
            flipped[index] ^= 1 << bit;
            assert!(!verify(&signature, &flipped, &public));
        }
    }
}

#[test]
fn any_flipped_bit_of_the_signature_fails() {
    let (public, _) = keys_of(&[0u8; 32]);
    for index in 0..64 {
        for bit in 0..8 {
            let mut flipped = ZERO_SEED_SIGNATURE;
            flipped[index] ^= 1 << bit;
            assert!(!verify(&flipped, b"test", &public));
        }
    }
}

#[test]
fn labels_separate_signatures() {
    let ours = SignatureContext::bizinikiwi();
    let generic = SignatureContext::new(b"substrate").unwrap();
    let (public, secret) = keys_of(&[0u8; 32]);
    let under_ours = ours.sign(&public, &secret, b"test").unwrap();
    let under_generic = generic.sign(&public, &secret, b"test").unwrap();
    assert!(ours.verify(&under_ours, b"test", &public));
    assert!(generic.verify(&under_generic, b"test", &public));
    assert!(!generic.verify(&under_ours, b"test", &public));
    assert!(!ours.verify(&under_generic, b"test", &public));
    assert!(!generic.verify(&ZERO_SEED_SIGNATURE, b"test", &public));
}

#[test]
fn the_fixed_label_is_bizinikiwi() {
    assert_eq!(SignatureContext::bizinikiwi().label(), b"bizinikiwi".to_vec());
    let same = SignatureContext::new(b"bizinikiwi").unwrap();
    let (public, secret) = keys_of(&[0u8; 32]);
    assert!(same.verify(&ZERO_SEED_SIGNATURE, b"test", &public));
    assert!(verify(&same.sign(&public, &secret, b"x").unwrap(), b"x", &public));
}

#[test]
fn a_context_keeps_its_label() {
    assert_eq!(SignatureContext::new(b"").unwrap().label(), Vec::<u8>::new());
    assert_eq!(SignatureContext::new(b"substrate").unwrap().label(), b"substrate".to_vec());
    let empty = SignatureContext::new(b"").unwrap();
    let (public, secret) = keys_of(&[0u8; 32]);
    let signature = empty.sign(&public, &secret, b"test").unwrap();
    assert!(empty.verify(&signature, b"test", &public));
    assert!(!verify(&signature, b"test", &public));
}

#[test]
fn the_primitive_verifies_what_is_signed_here() {
    let (public, secret) = keys_of(&[5u8; 32]);
    let signature = sign(&public, &secret, b"test").unwrap();
    let decoded = schnorrkel::Signature::from_bytes(&signature).unwrap();
    let key = schnorrkel::PublicKey::from_bytes(&public).unwrap();
    assert!(key.verify_simple(b"bizinikiwi", b"test", &decoded).is_ok());
    assert!(key.verify_simple(b"substrate", b"test", &decoded).is_err());
}

#[test]
fn what_the_primitive_signs_verifies_here() {
    let keypair = schnorrkel::MiniSecretKey::from_bytes(&[5u8; 32])
        .unwrap()
        .expand_to_keypair(schnorrkel::ExpansionMode::Ed25519);
    let signature = keypair.secret.sign_simple(b"bizinikiwi", b"test", &keypair.public).to_bytes();
    assert!(verify(&signature, b"test", &keypair.public.to_bytes()));
    let generic = keypair.secret.sign_simple(b"substrate", b"test", &keypair.public).to_bytes();
    assert!(!verify(&generic, b"test", &keypair.public.to_bytes()));
}

#[test]
fn signing_with_a_public_key_of_wrong_length_is_refused() {
    let (public, secret) = keys_of(&[0u8; 32]);
    let refused = Err(Error::InvalidLength(Argument::PublicKey));
    assert_eq!(sign(&public[..31], &secret, b"test"), refused);
    let mut long = public.clone();
    long.push(0);
    assert_eq!(sign(&long, &secret, b"test"), refused);
    assert_eq!(sign(&[], &secret, b"test"), refused);
}

#[test]
fn signing_with_a_secret_key_of_wrong_length_is_refused() {
    let (public, secret) = keys_of(&[0u8; 32]);
    let refused = Err(Error::InvalidLength(Argument::SecretKey));
    assert_eq!(sign(&public, &secret[..63], b"test"), refused);
    assert_eq!(sign(&public, &secret[..32], b"test"), refused);
    let mut long = secret.clone();
    long.push(0);
    assert_eq!(sign(&public, &long, b"test"), refused);
}

#[test]
fn signing_with_a_scalar_out_of_range_is_refused() {
    let (public, mut secret) = keys_of(&[0u8; 32]);
    let refused = Err(Error::InvalidEncoding(Argument::SecretKey));
    secret[..32].copy_from_slice(&GROUP_ORDER);
    assert_eq!(sign(&public, &secret, b"test"), refused);
    secret[..32].copy_from_slice(&[255u8; 32]);
    assert_eq!(sign(&public, &secret, b"test"), refused);
    secret[..32].copy_from_slice(&GROUP_ORDER);
    secret[31] |= 128;
    assert_eq!(sign(&public, &secret, b"test"), refused);
}

#[test]
fn signing_with_the_largest_scalar_is_accepted() {
    let (public, mut secret) = keys_of(&[0u8; 32]);
    secret[..32].copy_from_slice(&GROUP_ORDER);
    secret[0] -= 1;
    assert_eq!(sign(&public, &secret, b"test").unwrap().len(), 64);
    secret[..32].copy_from_slice(&[0u8; 32]);
    assert_eq!(sign(&public, &secret, b"test").unwrap().len(), 64);
}

#[test]
fn signing_with_a_public_key_that_is_no_group_element_is_refused() {
    let (_, secret) = keys_of(&[0u8; 32]);
    let refused = Err(Error::InvalidEncoding(Argument::PublicKey));
    assert_eq!(sign(&[255u8; 32], &secret, b"test"), refused);
    let mut odd = [0u8; 32];
    odd[0] = 1;
    assert_eq!(sign(&odd, &secret, b"test"), refused);
}

#[test]
fn the_secret_key_is_looked_at_before_the_public_key() {
    let (public, secret) = keys_of(&[0u8; 32]);
    let mut out_of_range = secret.clone();
    out_of_range[..32].copy_from_slice(&GROUP_ORDER);
    assert_eq!(
        sign(&public[..31], &secret[..63], b"test"),
        Err(Error::InvalidLength(Argument::SecretKey))
    );
    assert_eq!(
        sign(&public[..31], &out_of_range, b"test"),
        Err(Error::InvalidEncoding(Argument::SecretKey))
    );
    assert_eq!(
        sign(&[255u8; 32], &out_of_range, b"test"),
        Err(Error::InvalidEncoding(Argument::SecretKey))
    );
}

#[test]
fn signing_with_a_foreign_public_key_succeeds_and_never_verifies() {
    let (public, secret) = keys_of(&[1u8; 32]);
    let (foreign, _) = keys_of(&[2u8; 32]);
    let signature = sign(&foreign, &secret, b"test").unwrap();
    assert_eq!(signature.len(), 64);
    assert!(!verify(&signature, b"test", &foreign));
    assert!(!verify(&signature, b"test", &public));
}

#[test]
fn verifying_a_signature_of_wrong_length_gives_false() {
    let (public, _) = keys_of(&[0u8; 32]);
    assert!(!verify(&ZERO_SEED_SIGNATURE[..63], b"test", &public));
    let mut long = ZERO_SEED_SIGNATURE.to_vec();
    long.push(0);
    assert!(!verify(&long, b"test", &public));
    assert!(!verify(&[], b"test", &public));
}

#[test]
fn verifying_with_a_public_key_of_wrong_length_gives_false() {
    let (public, _) = keys_of(&[0u8; 32]);
    assert!(!verify(&ZERO_SEED_SIGNATURE, b"test", &public[..31]));
    let mut long = public.clone();
    long.push(0);
    assert!(!verify(&ZERO_SEED_SIGNATURE, b"test", &long));
    assert!(!verify(&ZERO_SEED_SIGNATURE, b"test", &[]));
}

#[test]
fn verifying_with_a_public_key_that_is_no_group_element_gives_false() {
    assert!(!verify(&ZERO_SEED_SIGNATURE, b"test", &[255u8; 32]));
}

#[test]
fn verifying_a_signature_without_the_marker_gives_false() {
    let (public, _) = keys_of(&[0u8; 32]);
    let mut unmarked = ZERO_SEED_SIGNATURE;
    unmarked[63] &= 127;
    assert!(!verify(&unmarked, b"test", &public));
}

#[test]
fn verifying_a_signature_with_a_scalar_out_of_range_gives_false() {
    let (public, _) = keys_of(&[0u8; 32]);
    let mut signature = ZERO_SEED_SIGNATURE;
    signature[32..].copy_from_slice(&GROUP_ORDER);
    signature[63] |= 128;
    assert!(!verify(&signature, b"test", &public));
    assert!(schnorrkel::Signature::from_bytes(&signature).is_err());
    signature[32] -= 1;
    assert!(schnorrkel::Signature::from_bytes(&signature).is_ok());
    assert!(!verify(&signature, b"test", &public));
}
