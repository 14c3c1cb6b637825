//! Elliptic-curve key management over an external cryptographic backend.
//!
//! The crate keeps a registry of named curves, validates caller-supplied
//! curve descriptors, builds private and public key objects from encoded
//! bytes or from raw numbers, and dispatches parsed key material to the
//! matching algorithm family.  All decision logic is verified; the
//! elliptic-curve arithmetic and the DER/PEM codecs themselves are supplied
//! by the `openssl` and `pem` crates behind trusted wrappers.

pub mod alg;
pub mod bigint;
pub mod curves;
pub mod eckey;
pub mod errors;
pub mod loader;
pub mod ossl;

pub use errors::InvalidKeyKind;
pub use errors::KeyError;
pub use errors::PasswordProblem;
pub use errors::UnsupportedReason;
