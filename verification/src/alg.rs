//! Algorithm descriptors.
//!
//! Callers select an operation family by handing in a descriptor that is
//! checked for the required capability: key exchange wants the ECDH
//! capability, signing and verification want the ECDSA capability with a
//! nested digest selector.  `Other` stands for a descriptor that
//! satisfies neither.

use vstd::prelude::*;

verus! {

/// The digest named inside a signature algorithm descriptor.
#[derive(Clone, Copy, PartialEq, Eq, Structural, Debug, Hash)]
pub enum DigestAlgorithm {
    Sha1,
    Sha224,
    Sha256,
    Sha384,
    Sha512,
}

/// The fixed output size, in bytes, of a digest algorithm.
pub open spec fn spec_digest_len(alg: DigestAlgorithm) -> nat {
    match alg {
        DigestAlgorithm::Sha1 => 20,
        DigestAlgorithm::Sha224 => 28,
        DigestAlgorithm::Sha256 => 32,
        DigestAlgorithm::Sha384 => 48,
        DigestAlgorithm::Sha512 => 64,
    }
}

/// A caller-supplied algorithm descriptor.
#[derive(Clone, Copy, PartialEq, Eq, Structural, Debug, Hash)]
pub enum AlgorithmDescriptor {
    /// Satisfies the elliptic-curve Diffie-Hellman capability.
    Ecdh,
    /// Satisfies the ECDSA capability, carrying the digest to apply.
    Ecdsa(DigestAlgorithm),
    /// Satisfies neither capability.
    Other,
}

} // verus!
