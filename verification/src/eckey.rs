//! Elliptic-curve key objects and their operations.
//!
//! Private and public keys hold opaque backend key material next to the
//! resolved curve descriptor.  Keys are built from caller-supplied
//! numbers, from raw point bytes, by random generation, or from parsed
//! key material; every construction path validates the curve, the sign
//! of the coordinates, and the public point before a key exists.

use vstd::prelude::*;

use crate::alg::AlgorithmDescriptor;
use crate::bigint::BigInt;
use crate::curves;
use crate::curves::CurveDescriptor;
use crate::curves::CurveSpec;
use crate::errors::InvalidKeyKind;
use crate::errors::KeyError;
use crate::errors::UnsupportedReason;
use crate::ossl;

verus! {

/// A validated EC private key: backend key material plus its curve.
/// Immutable after construction.
#[derive(Debug)]
pub struct EcPrivateKey {
    pub pkey: openssl::pkey::PKey<openssl::pkey::Private>,
    pub curve: CurveDescriptor,
}

/// A validated EC public key: backend key material plus its curve.
/// Immutable after construction; copying yields an equivalent value over
/// the same shared key material.
#[derive(Clone, Debug)]
pub struct EcPublicKey {
    pub pkey: openssl::pkey::PKey<openssl::pkey::Public>,
    pub curve: CurveDescriptor,
}

/// The affine coordinates of a public point, with the curve descriptor
/// the caller supplied.  A pure value type; equality compares the
/// coordinates and the curve's name and key size.  No hash is offered:
/// it would have to agree with that equality, and only process-local
/// hash consistency is ever meant for these values.
#[derive(Clone, Debug)]
pub struct PublicNumbers {
    pub x: BigInt,
    pub y: BigInt,
    pub curve: CurveSpec,
}

/// A private scalar together with the public numbers it should imply.
#[derive(Clone, Debug)]
pub struct PrivateNumbers {
    pub private_value: BigInt,
    pub public_numbers: PublicNumbers,
}

impl PublicNumbers {
    /// Validity: the coordinates are canonical integers.
    pub open spec fn wf(&self) -> bool {
        self.x.wf() && self.y.wf()
    }

    /// Wrap coordinates and a curve descriptor; the descriptor must
    /// satisfy the elliptic-curve capability.
    pub fn new(x: BigInt, y: BigInt, curve: CurveSpec) -> (r: Result<PublicNumbers, KeyError>)
        ensures
            curve.is_ec_instance ==> (r matches Ok(n) && n.x == x && n.y == y && n.curve == curve),
            !curve.is_ec_instance ==> r == Err::<PublicNumbers, KeyError>(KeyError::TypeMismatch),
    {
        if curve.is_ec_instance {
            Ok(PublicNumbers { x, y, curve })
        } else {
            Err(KeyError::TypeMismatch)
        }
    }

    /// Build a public key from the numbers.  Fails with `TypeMismatch` or
    /// an unsupported-curve error when the descriptor does not resolve,
    /// with the both-non-negative rejection when a coordinate is below
    /// zero — for every resolvable descriptor, unconditionally — and
    /// with `PointNotOnCurve` when the backend refuses the point.
    pub fn public_key(&self) -> (r: Result<EcPublicKey, KeyError>)
        requires
            self.wf(),
            self.x.fits_backend(),
            self.y.fits_backend(),
        ensures
            (match curves::spec_resolve_id(self.curve, false) {
                Err(e) => r matches Err(e2) && e2 == e,
                Ok(id) => {
                    &&& ((self.x@ < 0 || self.y@ < 0) ==> r == Err::<EcPublicKey, KeyError>(
                        KeyError::InvalidKey(InvalidKeyKind::NegativeCoordinates),
                    ))
                    &&& (r matches Ok(k) ==> k.curve.id == id && self.x@ >= 0 && self.y@ >= 0)
                    &&& (r matches Err(e) ==> (((self.x@ < 0 || self.y@ < 0) && e
                        == KeyError::InvalidKey(InvalidKeyKind::NegativeCoordinates)) || (self.x@
                        >= 0 && self.y@ >= 0 && (e == KeyError::InvalidKey(
                        InvalidKeyKind::PointNotOnCurve,
                    ) || e is Internal))))
                },
            }),
    {
        let id = match curves::resolve_id(&self.curve, false) {
            Err(e) => {
                return Err(e);
            },
            Ok(id) => id,
        };
        if self.x.is_negative() || self.y.is_negative() {
            return Err(KeyError::InvalidKey(InvalidKeyKind::NegativeCoordinates));
        }
        let group = match ossl::group_from_nid(curves::curve_nid(id)) {
            None => {
                return Err(KeyError::Internal("could not build curve parameters".to_owned()));
            },
            Some(g) => g,
        };
        let point = match point_on_curve(&group, &self.x, &self.y) {
            Err(e) => {
                return Err(e);
            },
            Ok(p) => p,
        };
        let ec = match ossl::ec_key_from_public_point(&group, &point) {
            None => {
                return Err(KeyError::Internal("could not assemble public key".to_owned()));
            },
            Some(k) => k,
        };
        match ossl::pkey_from_ec_key_pub(ec) {
            None => Err(KeyError::Internal("could not wrap public key".to_owned())),
            Some(pkey) => Ok(EcPublicKey { pkey, curve: CurveDescriptor { id } }),
        }
    }
}

impl PrivateNumbers {
    /// Validity: the scalar and the public numbers are canonical.
    pub open spec fn wf(&self) -> bool {
        self.private_value.wf() && self.public_numbers.wf()
    }

    /// Wrap a private scalar and its public numbers.
    pub fn new(private_value: BigInt, public_numbers: PublicNumbers) -> (r: PrivateNumbers)
        ensures
            r.private_value == private_value,
            r.public_numbers == public_numbers,
    {
        PrivateNumbers { private_value, public_numbers }
    }

    /// Build a private key from the numbers.  The public point implied by
    /// generator times the private scalar must equal the supplied public
    /// point exactly; a mismatch is a construction failure, never a
    /// silent correction.
    pub fn private_key(&self) -> (r: Result<EcPrivateKey, KeyError>)
        requires
            self.wf(),
            self.private_value.fits_backend(),
            self.public_numbers.x.fits_backend(),
            self.public_numbers.y.fits_backend(),
        ensures
            (match curves::spec_resolve_id(self.public_numbers.curve, false) {
                Err(e) => r matches Err(e2) && e2 == e,
                Ok(id) => {
                    &&& ((self.public_numbers.x@ < 0 || self.public_numbers.y@ < 0) ==> r == Err::<
                        EcPrivateKey,
                        KeyError,
                    >(KeyError::InvalidKey(InvalidKeyKind::NegativeCoordinates)))
                    &&& (r matches Ok(k) ==> k.curve.id == id && self.public_numbers.x@ >= 0
                        && self.public_numbers.y@ >= 0)
                    &&& (r matches Err(e) ==> (((self.public_numbers.x@ < 0
                        || self.public_numbers.y@ < 0) && e == KeyError::InvalidKey(
                        InvalidKeyKind::NegativeCoordinates,
                    )) || (self.public_numbers.x@ >= 0 && self.public_numbers.y@ >= 0 && (e
                        == KeyError::InvalidKey(InvalidKeyKind::PointNotOnCurve) || e
                        == KeyError::InvalidKey(InvalidKeyKind::PrivatePublicMismatch) || e
                        == KeyError::InvalidKey(InvalidKeyKind::PointAtInfinity) || e
                        == KeyError::InvalidKey(InvalidKeyKind::Construction)
                        || e is Internal))))
                },
            }),
    {
        let id = match curves::resolve_id(&self.public_numbers.curve, false) {
            Err(e) => {
                return Err(e);
            },
            Ok(id) => id,
        };
        if self.public_numbers.x.is_negative() || self.public_numbers.y.is_negative() {
            return Err(KeyError::InvalidKey(InvalidKeyKind::NegativeCoordinates));
        }
        let group = match ossl::group_from_nid(curves::curve_nid(id)) {
            None => {
                return Err(KeyError::Internal("could not build curve parameters".to_owned()));
            },
            Some(g) => g,
        };
        let point = match point_on_curve(&group, &self.public_numbers.x, &self.public_numbers.y) {
            Err(e) => {
                return Err(e);
            },
            Ok(p) => p,
        };
        match check_key_infinity(ossl::point_is_infinity(&group, &point)) {
            Err(e) => {
                return Err(e);
            },
            Ok(()) => {},
        }
        let negative = self.private_value.is_negative();
        let expected = match ossl::mul_generator(&group, negative, self.private_value.magnitude())
            {
            None => {
                return Err(KeyError::Internal("could not derive public point".to_owned()));
            },
            Some(p) => p,
        };
        let comparison = ossl::point_eq(&group, &expected, &point);
        match check_generator_match(comparison) {
            Err(e) => {
                return Err(e);
            },
            Ok(()) => {},
        }
        let ec = match ossl::ec_key_from_private_components(
            &group,
            negative,
            self.private_value.magnitude(),
            &point,
        ) {
            None => {
                return Err(KeyError::InvalidKey(InvalidKeyKind::Construction));
            },
            Some(k) => k,
        };
        match ossl::pkey_from_ec_key_priv(ec) {
            None => Err(KeyError::Internal("could not wrap private key".to_owned())),
            Some(pkey) => Ok(EcPrivateKey { pkey, curve: CurveDescriptor { id } }),
        }
    }
}

/// Build the backend point for non-negative affine coordinates; a point
/// the backend refuses does not satisfy the curve equation.
fn point_on_curve(group: &openssl::ec::EcGroup, x: &BigInt, y: &BigInt) -> (r: Result<
    openssl::ec::EcPoint,
    KeyError,
>)
    requires
        x.wf(),
        y.wf(),
        x@ >= 0,
        y@ >= 0,
        x.fits_backend(),
        y.fits_backend(),
    ensures
        r matches Err(e) ==> e == KeyError::InvalidKey(InvalidKeyKind::PointNotOnCurve),
{
    match ossl::point_from_affine(group, x.magnitude(), y.magnitude()) {
        None => Err(KeyError::InvalidKey(InvalidKeyKind::PointNotOnCurve)),
        Some(p) => Ok(p),
    }
}

/// Decide on the generator-times-scalar comparison: the pair stands only
/// if the derived and the supplied public points were found equal; an
/// inequality is the private/public mismatch failure, never a silent
/// correction, and a failed comparison is a backend failure.
fn check_generator_match(comparison: Option<bool>) -> (r: Result<(), KeyError>)
    ensures
        r is Ok <==> comparison == Some(true),
        comparison == Some(false) ==> r == Err::<(), KeyError>(
            KeyError::InvalidKey(InvalidKeyKind::PrivatePublicMismatch),
        ),
        comparison is None ==> (r matches Err(e) && e is Internal),
        r matches Err(e) ==> (e == KeyError::InvalidKey(InvalidKeyKind::PrivatePublicMismatch)
            || e is Internal),
{
    match comparison {
        None => Err(KeyError::Internal("could not compare points".to_owned())),
        Some(false) => Err(KeyError::InvalidKey(InvalidKeyKind::PrivatePublicMismatch)),
        Some(true) => Ok(()),
    }
}

/// Decide on the identity-element probe: key material stands exactly
/// when its public point is not the identity; the identity is the
/// point-at-infinity rejection.
fn check_key_infinity(is_infinity: bool) -> (r: Result<(), KeyError>)
    ensures
        r is Ok <==> !is_infinity,
        is_infinity ==> r == Err::<(), KeyError>(
            KeyError::InvalidKey(InvalidKeyKind::PointAtInfinity),
        ),
{
    if is_infinity {
        Err(KeyError::InvalidKey(InvalidKeyKind::PointAtInfinity))
    } else {
        Ok(())
    }
}

/// Generate a fresh private key on the given curve.  The curve argument
/// tolerates the legacy class-style descriptor, with a deprecation
/// warning reported through the resolution.
pub fn generate_private_key(curve: &CurveSpec) -> (r: Result<EcPrivateKey, KeyError>)
    ensures
        (match curves::spec_resolve_id(*curve, true) {
            Err(e) => r matches Err(e2) && e2 == e,
            Ok(id) => {
                &&& (r matches Ok(k) ==> k.curve.id == id)
                &&& (r matches Err(e) ==> e == KeyError::InvalidKey(InvalidKeyKind::PointAtInfinity)
                    || e is Internal)
            },
        }),
{
    let resolved = match curves::resolve(curve, true) {
        Err(e) => {
            return Err(e);
        },
        Ok(res) => res,
    };
    let ec = match ossl::ec_generate(&resolved.group) {
        None => {
            return Err(KeyError::Internal("key generation failed".to_owned()));
        },
        Some(k) => k,
    };
    match check_key_infinity(ossl::ec_key_is_infinity_priv(&ec)) {
        Err(e) => {
            return Err(e);
        },
        Ok(()) => {},
    }
    match ossl::pkey_from_ec_key_priv(ec) {
        None => Err(KeyError::Internal("could not wrap private key".to_owned())),
        Some(pkey) => Ok(EcPrivateKey { pkey, curve: resolved.descriptor }),
    }
}

/// Derive the private key whose scalar is `private_value` on the given
/// curve; the public point is generator times the scalar.
pub fn derive_private_key(private_value: &BigInt, curve: &CurveSpec) -> (r: Result<
    EcPrivateKey,
    KeyError,
>)
    requires
        private_value.wf(),
        private_value.fits_backend(),
    ensures
        (match curves::spec_resolve_id(*curve, false) {
            Err(e) => r matches Err(e2) && e2 == e,
            Ok(id) => {
                &&& (r matches Ok(k) ==> k.curve.id == id)
                &&& (r matches Err(e) ==> e == KeyError::InvalidKey(InvalidKeyKind::Construction)
                    || e == KeyError::InvalidKey(InvalidKeyKind::PointAtInfinity) || e is Internal)
            },
        }),
{
    let resolved = match curves::resolve(curve, false) {
        Err(e) => {
            return Err(e);
        },
        Ok(res) => res,
    };
    let negative = private_value.is_negative();
    let point = match ossl::mul_generator(&resolved.group, negative, private_value.magnitude()) {
        None => {
            return Err(KeyError::Internal("could not derive public point".to_owned()));
        },
        Some(p) => p,
    };
    let ec = match ossl::ec_key_from_private_components(
        &resolved.group,
        negative,
        private_value.magnitude(),
        &point,
    ) {
        None => {
            return Err(KeyError::InvalidKey(InvalidKeyKind::Construction));
        },
        Some(k) => k,
    };
    match check_key_infinity(ossl::ec_key_is_infinity_priv(&ec)) {
        Err(e) => {
            return Err(e);
        },
        Ok(()) => {},
    }
    match ossl::pkey_from_ec_key_priv(ec) {
        None => Err(KeyError::Internal("could not wrap private key".to_owned())),
        Some(pkey) => Ok(EcPrivateKey { pkey, curve: resolved.descriptor }),
    }
}

/// Build a public key from an encoded point on the given curve.
pub fn from_public_bytes(curve: &CurveSpec, data: &[u8]) -> (r: Result<EcPublicKey, KeyError>)
    ensures
        (match curves::spec_resolve_id(*curve, false) {
            Err(e) => r matches Err(e2) && e2 == e,
            Ok(id) => {
                &&& (r matches Ok(k) ==> k.curve.id == id)
                &&& (r matches Err(e) ==> e == KeyError::InvalidKey(InvalidKeyKind::MalformedPoint)
                    || e == KeyError::InvalidKey(InvalidKeyKind::PointAtInfinity) || e is Internal)
            },
        }),
{
    let resolved = match curves::resolve(curve, false) {
        Err(e) => {
            return Err(e);
        },
        Ok(res) => res,
    };
    let point = match ossl::point_from_bytes(&resolved.group, data) {
        None => {
            return Err(KeyError::InvalidKey(InvalidKeyKind::MalformedPoint));
        },
        Some(p) => p,
    };
    if ossl::point_is_infinity(&resolved.group, &point) {
        return Err(KeyError::InvalidKey(InvalidKeyKind::PointAtInfinity));
    }
    let ec = match ossl::ec_key_from_public_point(&resolved.group, &point) {
        None => {
            return Err(KeyError::Internal("could not assemble public key".to_owned()));
        },
        Some(k) => k,
    };
    match ossl::pkey_from_ec_key_pub(ec) {
        None => Err(KeyError::Internal("could not wrap public key".to_owned())),
        Some(pkey) => Ok(EcPublicKey { pkey, curve: resolved.descriptor }),
    }
}

/// Wrap already-parsed private key material: describe its curve, reject
/// the identity point, and keep a shared handle to the material.
pub fn private_key_from_pkey(pkey: &openssl::pkey::PKey<openssl::pkey::Private>) -> (r: Result<
    EcPrivateKey,
    KeyError,
>)
    ensures
        r matches Err(e) ==> e == KeyError::UnsupportedAlgorithm(
            UnsupportedReason::ExplicitOrUnknownCurve,
        ) || e == KeyError::UnsupportedAlgorithm(UnsupportedReason::UnsupportedEllipticCurve) || e
            == KeyError::InvalidKey(InvalidKeyKind::PointAtInfinity) || e is Internal,
{
    let ec = match ossl::pkey_ec_key_priv(pkey) {
        None => {
            return Err(KeyError::Internal("key material is not an EC key".to_owned()));
        },
        Some(k) => k,
    };
    let (nid, explicit) = ossl::ec_key_curve_info_priv(&ec);
    let descriptor = match curves::describe(nid, explicit) {
        Err(e) => {
            return Err(e);
        },
        Ok(d) => d,
    };
    match check_key_infinity(ossl::ec_key_is_infinity_priv(&ec)) {
        Err(e) => {
            return Err(e);
        },
        Ok(()) => {},
    }
    Ok(EcPrivateKey { pkey: pkey.clone(), curve: descriptor })
}

/// Wrap already-parsed public key material, as the private variant does.
pub fn public_key_from_pkey(pkey: &openssl::pkey::PKey<openssl::pkey::Public>) -> (r: Result<
    EcPublicKey,
    KeyError,
>)
    ensures
        r matches Err(e) ==> e == KeyError::UnsupportedAlgorithm(
            UnsupportedReason::ExplicitOrUnknownCurve,
        ) || e == KeyError::UnsupportedAlgorithm(UnsupportedReason::UnsupportedEllipticCurve) || e
            == KeyError::InvalidKey(InvalidKeyKind::PointAtInfinity) || e is Internal,
{
    let ec = match ossl::pkey_ec_key_pub(pkey) {
        None => {
            return Err(KeyError::Internal("key material is not an EC key".to_owned()));
        },
        Some(k) => k,
    };
    let (nid, explicit) = ossl::ec_key_curve_info_pub(&ec);
    let descriptor = match curves::describe(nid, explicit) {
        Err(e) => {
            return Err(e);
        },
        Ok(d) => d,
    };
    match check_key_infinity(ossl::ec_key_is_infinity_pub(&ec)) {
        Err(e) => {
            return Err(e);
        },
        Ok(()) => {},
    }
    Ok(EcPublicKey { pkey: pkey.clone(), curve: descriptor })
}

impl EcPrivateKey {
    /// The key size of the key's curve, in bits.
    pub fn key_size(&self) -> (r: u32)
        ensures
            r == curves::spec_key_size(self.curve.id),
    {
        curves::curve_key_size(self.curve.id)
    }

    /// The public half of the key, sharing the curve descriptor and the
    /// public point, never the private scalar.
    pub fn public_key(&self) -> (r: Result<EcPublicKey, KeyError>)
        ensures
            r matches Ok(k) ==> k.curve == self.curve,
            r matches Err(e) ==> e is Internal,
    {
        let ec = match ossl::pkey_ec_key_priv(&self.pkey) {
            None => {
                return Err(KeyError::Internal("key material is not an EC key".to_owned()));
            },
            Some(k) => k,
        };
        let half = match ossl::ec_public_half(&ec) {
            None => {
                return Err(KeyError::Internal("could not extract public half".to_owned()));
            },
            Some(k) => k,
        };
        match ossl::pkey_from_ec_key_pub(half) {
            None => Err(KeyError::Internal("could not wrap public key".to_owned())),
            Some(pkey) => Ok(EcPublicKey { pkey, curve: self.curve }),
        }
    }

    /// Derive a shared secret with a peer's public key.  The algorithm
    /// descriptor must satisfy the ECDH capability; the peer key was
    /// validated when it was constructed and is not re-validated here.
    pub fn exchange(&self, algorithm: &AlgorithmDescriptor, peer: &EcPublicKey) -> (r: Result<
        Vec<u8>,
        KeyError,
    >)
        ensures
            !(algorithm is Ecdh) ==> (r matches Err(e) && e == KeyError::UnsupportedAlgorithm(
                UnsupportedReason::UnsupportedExchangeAlgorithm,
            )),
            r matches Err(e) ==> (algorithm is Ecdh ==> e is Internal),
    {
        if !(matches!(algorithm, AlgorithmDescriptor::Ecdh)) {
            return Err(
                KeyError::UnsupportedAlgorithm(UnsupportedReason::UnsupportedExchangeAlgorithm),
            );
        }
        match ossl::derive_shared(&self.pkey, &peer.pkey) {
            None => Err(KeyError::Internal("Error computing shared key.".to_owned())),
            Some(secret) => Ok(secret),
        }
    }

    /// Sign a message.  The algorithm descriptor must satisfy the ECDSA
    /// capability; its digest is applied to the message and the digest is
    /// signed.  The signature is DER-encoded and of variable length.
    pub fn sign(&self, data: &[u8], algorithm: &AlgorithmDescriptor) -> (r: Result<
        Vec<u8>,
        KeyError,
    >)
        ensures
            !(algorithm is Ecdsa) ==> (r matches Err(e) && e == KeyError::UnsupportedAlgorithm(
                UnsupportedReason::UnsupportedPublicKeyAlgorithm,
            )),
            r matches Err(e) ==> (algorithm is Ecdsa ==> e is Internal),
    {
        let digest_alg = match algorithm {
            AlgorithmDescriptor::Ecdsa(d) => d,
            _ => {
                return Err(
                    KeyError::UnsupportedAlgorithm(UnsupportedReason::UnsupportedPublicKeyAlgorithm),
                );
            },
        };
        let digest_bytes = match ossl::digest(digest_alg, data) {
            None => {
                return Err(KeyError::Internal("could not compute digest".to_owned()));
            },
            Some(d) => d,
        };
        match ossl::ecdsa_sign(&self.pkey, digest_bytes.as_slice()) {
            None => Err(KeyError::Internal("signing failed".to_owned())),
            Some(sig) => Ok(sig),
        }
    }

    /// The numeric form of the key: the private scalar and the affine
    /// coordinates of the public point, with a descriptor for the curve.
    pub fn private_numbers(&self) -> (r: Result<PrivateNumbers, KeyError>)
        ensures
            r matches Ok(n) ==> {
                &&& n.wf()
                &&& n.private_value.fits_backend()
                &&& n.public_numbers.x.fits_backend()
                &&& n.public_numbers.y.fits_backend()
                &&& n.private_value@ >= 0
                &&& n.public_numbers.x@ >= 0
                &&& n.public_numbers.y@ >= 0
                &&& n.public_numbers.curve.name@ == curves::spec_curve_name(self.curve.id)
                &&& n.public_numbers.curve.key_size == curves::spec_key_size(self.curve.id)
                &&& n.public_numbers.curve.is_ec_instance
            },
            r matches Err(e) ==> e is Internal,
    {
        let ec = match ossl::pkey_ec_key_priv(&self.pkey) {
            None => {
                return Err(KeyError::Internal("key material is not an EC key".to_owned()));
            },
            Some(k) => k,
        };
        let coords = match ossl::ec_key_affine_coordinates_priv(&ec) {
            None => {
                return Err(KeyError::Internal("could not read coordinates".to_owned()));
            },
            Some(c) => c,
        };
        let (x_be, y_be) = coords;
        let scalar = ossl::ec_key_private_scalar(&ec);
        let spec = CurveSpec {
            name: curves::curve_name(self.curve.id),
            key_size: curves::curve_key_size(self.curve.id),
            is_ec_instance: true,
        };
        let x = BigInt::new(false, x_be);
        let y = BigInt::new(false, y_be);
        let private_value = BigInt::new(false, scalar);
        if x.magnitude().len() > 0x7fff_ffff || y.magnitude().len() > 0x7fff_ffff
            || private_value.magnitude().len() > 0x7fff_ffff {
            return Err(KeyError::Internal("number exceeds the backend's width".to_owned()));
        }
        Ok(
            PrivateNumbers {
                private_value,
                public_numbers: PublicNumbers { x, y, curve: spec },
            },
        )
    }

    /// Serialized key bytes, delegated to the backend: unencrypted
    /// PKCS#8 DER.
    pub fn private_bytes_der(&self) -> (r: Result<Vec<u8>, KeyError>)
        ensures
            r matches Err(e) ==> e is Internal,
    {
        match ossl::private_key_to_pkcs8_der(&self.pkey) {
            None => Err(KeyError::Internal("serialization failed".to_owned())),
            Some(b) => Ok(b),
        }
    }

    /// Serialized key bytes, delegated to the backend: unencrypted
    /// PKCS#8 PEM.
    pub fn private_bytes_pem(&self) -> (r: Result<Vec<u8>, KeyError>)
        ensures
            r matches Err(e) ==> e is Internal,
    {
        match ossl::private_key_to_pem(&self.pkey) {
            None => Err(KeyError::Internal("serialization failed".to_owned())),
            Some(b) => Ok(b),
        }
    }

    /// Serialized key bytes, delegated to the backend: PKCS#8 PEM
    /// encrypted under the given password.
    pub fn private_bytes_pem_encrypted(&self, password: &[u8]) -> (r: Result<Vec<u8>, KeyError>)
        requires
            password@.len() <= 0x7fff_ffff,
        ensures
            r matches Err(e) ==> e is Internal,
    {
        match ossl::private_key_to_pem_encrypted(&self.pkey, password) {
            None => Err(KeyError::Internal("serialization failed".to_owned())),
            Some(b) => Ok(b),
        }
    }
}

impl EcPublicKey {
    /// The key size of the key's curve, in bits.
    pub fn key_size(&self) -> (r: u32)
        ensures
            r == curves::spec_key_size(self.curve.id),
    {
        curves::curve_key_size(self.curve.id)
    }

    /// Verify a signature over a message.  The algorithm descriptor must
    /// satisfy the ECDSA capability.  A cryptographically wrong signature
    /// yields `InvalidSignature`, distinct from any malformed-input
    /// error.
    pub fn verify(&self, signature: &[u8], data: &[u8], algorithm: &AlgorithmDescriptor) -> (r:
        Result<(), KeyError>)
        ensures
            !(algorithm is Ecdsa) ==> (r matches Err(e) && e == KeyError::UnsupportedAlgorithm(
                UnsupportedReason::UnsupportedPublicKeyAlgorithm,
            )),
            r matches Err(e) ==> (algorithm is Ecdsa ==> (e is InvalidSignature || e is Internal)),
    {
        let digest_alg = match algorithm {
            AlgorithmDescriptor::Ecdsa(d) => d,
            _ => {
                return Err(
                    KeyError::UnsupportedAlgorithm(UnsupportedReason::UnsupportedPublicKeyAlgorithm),
                );
            },
        };
        let digest_bytes = match ossl::digest(digest_alg, data) {
            None => {
                return Err(KeyError::Internal("could not compute digest".to_owned()));
            },
            Some(d) => d,
        };
        match ossl::ecdsa_verify(&self.pkey, digest_bytes.as_slice(), signature) {
            None => Err(KeyError::Internal("verification failed".to_owned())),
            Some(false) => Err(KeyError::InvalidSignature),
            Some(true) => Ok(()),
        }
    }

    /// The numeric form of the key: the affine coordinates of the public
    /// point, with a descriptor for the curve.
    pub fn public_numbers(&self) -> (r: Result<PublicNumbers, KeyError>)
        ensures
            r matches Ok(n) ==> {
                &&& n.wf()
                &&& n.x.fits_backend()
                &&& n.y.fits_backend()
                &&& n.x@ >= 0
                &&& n.y@ >= 0
                &&& n.curve.name@ == curves::spec_curve_name(self.curve.id)
                &&& n.curve.key_size == curves::spec_key_size(self.curve.id)
                &&& n.curve.is_ec_instance
            },
            r matches Err(e) ==> e is Internal,
    {
        let ec = match ossl::pkey_ec_key_pub(&self.pkey) {
            None => {
                return Err(KeyError::Internal("key material is not an EC key".to_owned()));
            },
            Some(k) => k,
        };
        let coords = match ossl::ec_key_affine_coordinates_pub(&ec) {
            None => {
                return Err(KeyError::Internal("could not read coordinates".to_owned()));
            },
            Some(c) => c,
        };
        let (x_be, y_be) = coords;
        let spec = CurveSpec {
            name: curves::curve_name(self.curve.id),
            key_size: curves::curve_key_size(self.curve.id),
            is_ec_instance: true,
        };
        let x = BigInt::new(false, x_be);
        let y = BigInt::new(false, y_be);
        if x.magnitude().len() > 0x7fff_ffff || y.magnitude().len() > 0x7fff_ffff {
            return Err(KeyError::Internal("number exceeds the backend's width".to_owned()));
        }
        Ok(PublicNumbers { x, y, curve: spec })
    }

    /// Cryptographic equality of the public key material, delegated to
    /// the backend; not numeric or handle identity.  Nothing sound can be
    /// stated of the backend's answer over opaque handles, so this
    /// carries no contract.
    pub fn equals(&self, other: &EcPublicKey) -> bool {
        ossl::pkey_public_eq(&self.pkey, &other.pkey)
    }

    /// Serialized key bytes, delegated to the backend:
    /// SubjectPublicKeyInfo DER.
    pub fn public_bytes_der(&self) -> (r: Result<Vec<u8>, KeyError>)
        ensures
            r matches Err(e) ==> e is Internal,
    {
        match ossl::public_key_to_der(&self.pkey) {
            None => Err(KeyError::Internal("serialization failed".to_owned())),
            Some(b) => Ok(b),
        }
    }

    /// Serialized key bytes, delegated to the backend:
    /// SubjectPublicKeyInfo PEM.
    pub fn public_bytes_pem(&self) -> (r: Result<Vec<u8>, KeyError>)
        ensures
            r matches Err(e) ==> e is Internal,
    {
        match ossl::public_key_to_pem(&self.pkey) {
            None => Err(KeyError::Internal("serialization failed".to_owned())),
            Some(b) => Ok(b),
        }
    }
}

impl PartialEq for PublicNumbers {
    /// Equality over the coordinates, the curve name and the curve key
    /// size.
    fn eq(&self, other: &PublicNumbers) -> (r: bool) {
        self.x == other.x && self.y == other.y && self.curve.name == other.curve.name
            && self.curve.key_size == other.curve.key_size
    }
}

impl vstd::std_specs::cmp::PartialEqSpecImpl for PublicNumbers {
    open spec fn obeys_eq_spec() -> bool {
        true
    }

    open spec fn eq_spec(&self, other: &PublicNumbers) -> bool {
        &&& vstd::std_specs::cmp::PartialEqSpec::eq_spec(&self.x, &other.x)
        &&& vstd::std_specs::cmp::PartialEqSpec::eq_spec(&self.y, &other.y)
        &&& self.curve.name@ == other.curve.name@
        &&& self.curve.key_size == other.curve.key_size
    }
}

impl PartialEq for PrivateNumbers {
    /// Equality over the private scalar and the public numbers.
    fn eq(&self, other: &PrivateNumbers) -> (r: bool) {
        self.private_value == other.private_value && self.public_numbers == other.public_numbers
    }
}

impl vstd::std_specs::cmp::PartialEqSpecImpl for PrivateNumbers {
    open spec fn obeys_eq_spec() -> bool {
        true
    }

    open spec fn eq_spec(&self, other: &PrivateNumbers) -> bool {
        &&& vstd::std_specs::cmp::PartialEqSpec::eq_spec(&self.private_value, &other.private_value)
        &&& vstd::std_specs::cmp::PartialEqSpec::eq_spec(&self.public_numbers, &other.public_numbers)
    }
}

} // verus!
