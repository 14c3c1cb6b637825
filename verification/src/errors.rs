//! The error taxonomy of the library.
//!
//! Every validation failure is surfaced to the immediate caller as a typed
//! error; nothing is downgraded to a default or a partial result.

use vstd::prelude::*;

verus! {

/// Machine-readable reason codes carried by `KeyError::UnsupportedAlgorithm`.
#[derive(Clone, Copy, PartialEq, Eq, Structural, Debug, Hash)]
pub enum UnsupportedReason {
    /// The curve name is not in the supported registry.
    UnsupportedEllipticCurve,
    /// The native curve has no short name, or uses explicit (non-named)
    /// parameter encoding.
    ExplicitOrUnknownCurve,
    /// The algorithm descriptor does not satisfy the key-exchange capability.
    UnsupportedExchangeAlgorithm,
    /// The algorithm descriptor does not satisfy the signature capability.
    UnsupportedPublicKeyAlgorithm,
    /// A parsed key's native type identifier matches no known family.
    UnsupportedKeyType,
}

/// Why a key was judged invalid.
#[derive(Clone, Copy, PartialEq, Eq, Structural, Debug, Hash)]
pub enum InvalidKeyKind {
    /// The public point is the curve's identity element.
    PointAtInfinity,
    /// A coordinate handed in as a number was negative.
    NegativeCoordinates,
    /// The affine coordinates do not satisfy the curve equation.
    PointNotOnCurve,
    /// generator * privateValue differs from the supplied public point.
    PrivatePublicMismatch,
    /// Raw point bytes that the backend could not decode.
    MalformedPoint,
    /// The backend rejected the assembled key material.
    Construction,
}

/// What went wrong around a password during private-key parsing.
#[derive(Clone, Copy, PartialEq, Eq, Structural, Debug, Hash)]
pub enum PasswordProblem {
    /// The key is encrypted and no password was supplied.
    Required,
    /// The key is encrypted and the supplied password did not decrypt it.
    Incorrect,
    /// A password was supplied but the key is not encrypted.
    SuppliedButKeyNotEncrypted,
    /// The password callback was invoked more than once.
    AmbiguousUse,
    /// The supplied password does not fit the backend's buffer.
    TooLong,
}

/// The typed errors this library reports.
#[derive(Clone, PartialEq, Eq, Debug)]
pub enum KeyError {
    /// An algorithm, curve or key family outside the supported set,
    /// with a machine-readable reason.
    UnsupportedAlgorithm(UnsupportedReason),
    /// Key material that fails validation.
    InvalidKey(InvalidKeyKind),
    /// A signature that is cryptographically wrong; never used for
    /// malformed input.
    InvalidSignature,
    /// DER or PEM framing that could not be parsed; carries the parser's
    /// own message.
    MalformedEncoding(String),
    /// A password that is missing, wrong, unused or unusable.
    PasswordError(PasswordProblem),
    /// A caller-supplied descriptor that does not satisfy the required
    /// capability.
    TypeMismatch,
    /// A failure inside the cryptographic backend; carries its message.
    Internal(String),
}

impl KeyError {
    /// A human-readable description of the error.
    pub fn message(&self) -> String {
        match self {
            KeyError::UnsupportedAlgorithm(UnsupportedReason::UnsupportedEllipticCurve) => {
                "Curve is not supported".to_owned()
            },
            KeyError::UnsupportedAlgorithm(UnsupportedReason::ExplicitOrUnknownCurve) => {
                "ECDSA keys with explicit parameters are unsupported at this time".to_owned()
            },
            KeyError::UnsupportedAlgorithm(UnsupportedReason::UnsupportedExchangeAlgorithm) => {
                "Unsupported EC exchange algorithm".to_owned()
            },
            KeyError::UnsupportedAlgorithm(UnsupportedReason::UnsupportedPublicKeyAlgorithm) => {
                "Unsupported elliptic curve signature algorithm".to_owned()
            },
            KeyError::UnsupportedAlgorithm(UnsupportedReason::UnsupportedKeyType) => {
                "Unsupported key type.".to_owned()
            },
            KeyError::InvalidKey(InvalidKeyKind::PointAtInfinity) => {
                "Cannot load an EC public key where the point is at infinity".to_owned()
            },
            KeyError::InvalidKey(InvalidKeyKind::NegativeCoordinates) => {
                "Invalid EC key. Both x and y must be non-negative.".to_owned()
            },
            KeyError::InvalidKey(InvalidKeyKind::PointNotOnCurve) => {
                "Invalid EC key. Point is not on the curve specified.".to_owned()
            },
            KeyError::InvalidKey(InvalidKeyKind::PrivatePublicMismatch) => {
                "Invalid EC key.".to_owned()
            },
            KeyError::InvalidKey(InvalidKeyKind::MalformedPoint) => {
                "Invalid EC key.".to_owned()
            },
            KeyError::InvalidKey(InvalidKeyKind::Construction) => "Invalid EC key.".to_owned(),
            KeyError::InvalidSignature => "Signature verification failed".to_owned(),
            KeyError::MalformedEncoding(m) => m.clone(),
            KeyError::PasswordError(PasswordProblem::Required) => {
                "Password was not given but private key is encrypted".to_owned()
            },
            KeyError::PasswordError(PasswordProblem::Incorrect) => {
                "Incorrect password, could not decrypt key".to_owned()
            },
            KeyError::PasswordError(PasswordProblem::SuppliedButKeyNotEncrypted) => {
                "Password was given but private key is not encrypted.".to_owned()
            },
            KeyError::PasswordError(PasswordProblem::AmbiguousUse) => {
                "Ambiguous password usage".to_owned()
            },
            KeyError::PasswordError(PasswordProblem::TooLong) => {
                "Password is too long for the backend".to_owned()
            },
            KeyError::TypeMismatch => "Argument does not satisfy the required capability".to_owned(
            ),
            KeyError::Internal(m) => m.clone(),
        }
    }
}

} // verus!
