//! Signing and verifying under a context label.
//!
//! The label is bound into every transcript, before the message. A signature
//! made under one label is a signature for that label only: under another
//! label the same key and message give an unrelated transcript.

use crate::error::Argument;
use crate::error::Error;
use crate::keypair::bytes_of;
use crate::layout::copy_range;
use crate::layout::PUBLIC_KEY_LENGTH;
use crate::layout::SECRET_KEY_LENGTH;
use crate::layout::SIGNATURE_LENGTH;
use crate::primitive::check_public_key;
use crate::primitive::check_secret_key;
use crate::primitive::fits_transcript;
use crate::primitive::own_public_key;
use crate::primitive::public_key_decodes;
use crate::primitive::schnorr_accepts;
use crate::primitive::secret_key_decodes;
use crate::primitive::sign_transcript;
use crate::primitive::signature_decodes;
use crate::primitive::verifies;
use crate::primitive::verify_transcript;
use crate::primitive::TRANSCRIPT_LIMIT;
use vstd::prelude::*;

verus! {

/// The label of this application, the ASCII bytes of `bizinikiwi`. It is not
/// the label `substrate` that signatures of this scheme commonly carry.
pub open spec fn bizinikiwi_label() -> Seq<u8> {
    seq![98u8, 105u8, 122u8, 105u8, 110u8, 105u8, 107u8, 105u8, 119u8, 105u8]
}

/// Why signing is refused, if it is. The secret key is looked at first, then
/// the public key, each for its length before its encoding; the message
/// last.
pub open spec fn sign_refusal(
    public_key: Seq<u8>,
    secret_key: Seq<u8>,
    message: Seq<u8>,
) -> Option<Error> {
    if secret_key.len() != SECRET_KEY_LENGTH {
        Some(Error::InvalidLength(Argument::SecretKey))
    } else if !secret_key_decodes(secret_key) {
        Some(Error::InvalidEncoding(Argument::SecretKey))
    } else if public_key.len() != PUBLIC_KEY_LENGTH {
        Some(Error::InvalidLength(Argument::PublicKey))
    } else if !public_key_decodes(public_key) {
        Some(Error::InvalidEncoding(Argument::PublicKey))
    } else if !fits_transcript(message) {
        Some(Error::InvalidLength(Argument::Message))
    } else {
        None
    }
}

/// What signing may give. A refused input gives its refusal and nothing
/// else. An accepted one gives some signature that decodes; which one is
/// not fixed, for the nonce takes in fresh randomness. Where the public key
/// is the secret key's own, the signature is one that verification under the
/// same label, message and public key accepts.
pub open spec fn sign_outcome(
    label: Seq<u8>,
    public_key: Seq<u8>,
    secret_key: Seq<u8>,
    message: Seq<u8>,
    outcome: Result<Seq<u8>, Error>,
) -> bool {
    match sign_refusal(public_key, secret_key, message) {
        Some(e) => outcome == Err::<Seq<u8>, Error>(e),
        None => {
            &&& outcome matches Ok(signature)
            &&& signature_decodes(signature)
            &&& public_key == own_public_key(secret_key) ==> schnorr_accepts(
                label,
                message,
                public_key,
                signature,
            )
        },
    }
}

/// What verifying gives: `true` where signature and public key decode, the
/// message fits a transcript and the verification equation holds; `false`
/// in every other case.
pub open spec fn verify_spec(
    label: Seq<u8>,
    signature: Seq<u8>,
    message: Seq<u8>,
    public_key: Seq<u8>,
) -> bool {
    fits_transcript(message) && verifies(label, message, public_key, signature)
}

/// A context label, fixed when the context is made.
pub struct SignatureContext {
    label: Vec<u8>,
}

impl View for SignatureContext {
    type V = Seq<u8>;

    /// The label.
    closed spec fn view(&self) -> Seq<u8> {
        self.label@
    }
}

impl SignatureContext {
    #[verifier::type_invariant]
    spec fn label_fits(self) -> bool {
        fits_transcript(self.label@)
    }

    /// A context with the given label. A label too long for a transcript is
    /// refused as `InvalidLength`.
    pub fn new(label: &[u8]) -> (r: Result<SignatureContext, Error>)
        ensures
            match r {
                Ok(context) => context@ == label@ && fits_transcript(label@),
                Err(e) => e == Error::InvalidLength(Argument::Label) && !fits_transcript(label@),
            },
    {
        if label.len() > TRANSCRIPT_LIMIT as usize {
            return Err(Error::InvalidLength(Argument::Label));
        }
        let copy = copy_range(label, 0, label.len());
        assert(copy@ =~= label@);
        Ok(SignatureContext { label: copy })
    }

    /// The context of this application, with the label `bizinikiwi`.
    pub fn bizinikiwi() -> (context: SignatureContext)
        ensures
            context@ == bizinikiwi_label(),
    {
        let label: Vec<u8> = vec![98u8, 105u8, 122u8, 105u8, 110u8, 105u8, 107u8, 105u8, 119u8, 105u8];
        assert(label@ =~= bizinikiwi_label());
        SignatureContext { label }
    }

    /// The label.
    pub fn label(&self) -> (out: Vec<u8>)
        ensures
            out@ == self@,
            fits_transcript(self@),
    {
        proof {
            use_type_invariant(self);
        }
        let out = copy_range(self.label.as_slice(), 0, self.label.len());
        assert(out@ =~= self.label@);
        out
    }

    /// Signs `message` under this label with `secret_key`, binding
    /// `public_key` into the transcript.
    ///
    /// The public key is taken as given: it is not compared with the one
    /// that the secret key has. With a public key that is not the secret
    /// key's own, signing succeeds and the signature verifies under neither.
    /// Two calls on the same input may give different signatures.
    pub fn sign(&self, public_key: &[u8], secret_key: &[u8], message: &[u8]) -> (r: Result<
        Vec<u8>,
        Error,
    >)
        ensures
            sign_outcome(self@, public_key@, secret_key@, message@, bytes_of(r)),
            r is Ok <==> sign_refusal(public_key@, secret_key@, message@) is None,
            r matches Ok(signature) ==> signature@.len() == SIGNATURE_LENGTH,
            public_key@.len() != PUBLIC_KEY_LENGTH || secret_key@.len() != SECRET_KEY_LENGTH
                ==> r is Err,
    {
        proof {
            use_type_invariant(self);
        }
        if secret_key.len() != SECRET_KEY_LENGTH {
            return Err(Error::InvalidLength(Argument::SecretKey));
        }
        if check_secret_key(secret_key).is_err() {
            return Err(Error::InvalidEncoding(Argument::SecretKey));
        }
        if public_key.len() != PUBLIC_KEY_LENGTH {
            return Err(Error::InvalidLength(Argument::PublicKey));
        }
        if check_public_key(public_key).is_err() {
            return Err(Error::InvalidEncoding(Argument::PublicKey));
        }
        if message.len() > TRANSCRIPT_LIMIT as usize {
            return Err(Error::InvalidLength(Argument::Message));
        }
        Ok(sign_transcript(self.label.as_slice(), message, secret_key, public_key))
    }

    /// Whether `signature` is a signature of `message` under this label that
    /// `public_key` accepts. Input that is malformed in any way gives
    /// `false`, and nothing tells the caller which part was.
    pub fn verify(&self, signature: &[u8], message: &[u8], public_key: &[u8]) -> (accepted: bool)
        ensures
            accepted == verify_spec(self@, signature@, message@, public_key@),
            signature@.len() != SIGNATURE_LENGTH || public_key@.len() != PUBLIC_KEY_LENGTH
                ==> !accepted,
    {
        proof {
            use_type_invariant(self);
        }
        if signature.len() != SIGNATURE_LENGTH {
            return false;
        }
        if public_key.len() != PUBLIC_KEY_LENGTH {
            return false;
        }
        if message.len() > TRANSCRIPT_LIMIT as usize {
            return false;
        }
        match verify_transcript(self.label.as_slice(), message, public_key, signature) {
            Ok(_) => true,
            Err(_) => false,
        }
    }
}

/// Signs `message` under the label `bizinikiwi`.
pub fn sign(public_key: &[u8], secret_key: &[u8], message: &[u8]) -> (r: Result<Vec<u8>, Error>)
    ensures
        sign_outcome(bizinikiwi_label(), public_key@, secret_key@, message@, bytes_of(r)),
        r is Ok <==> sign_refusal(public_key@, secret_key@, message@) is None,
        r matches Ok(signature) ==> signature@.len() == SIGNATURE_LENGTH,
        public_key@.len() != PUBLIC_KEY_LENGTH || secret_key@.len() != SECRET_KEY_LENGTH
            ==> r is Err,
{
    SignatureContext::bizinikiwi().sign(public_key, secret_key, message)
}

/// Whether `signature` is a signature of `message` under the label
/// `bizinikiwi` that `public_key` accepts.
pub fn verify(signature: &[u8], message: &[u8], public_key: &[u8]) -> (accepted: bool)
    ensures
        accepted == verify_spec(bizinikiwi_label(), signature@, message@, public_key@),
        signature@.len() != SIGNATURE_LENGTH || public_key@.len() != PUBLIC_KEY_LENGTH
            ==> !accepted,
{
    SignatureContext::bizinikiwi().verify(signature, message, public_key)
}

} // verus!
