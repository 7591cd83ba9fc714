//! Schnorr signatures over the Ristretto group ("sr25519") under a fixed
//! signing-context label.
//!
//! Every operation takes and returns plain byte sequences. Lengths and
//! encodings are checked here and refused with a typed [`Error`]; the group
//! arithmetic and the transcript hashing are done by `schnorrkel`, reached
//! only through the trusted declarations of [`primitive`].

pub mod context;
pub mod error;
pub mod keypair;
pub mod laws;
pub mod layout;
pub mod primitive;

pub use context::sign;
pub use context::verify;
pub use context::SignatureContext;
pub use error::Argument;
pub use error::Error;
pub use keypair::create_from_pair;
pub use keypair::create_from_seed;
pub use keypair::derive_keypair;
pub use keypair::public_key_of;
pub use keypair::secret_key_of;
pub use keypair::Keypair;
