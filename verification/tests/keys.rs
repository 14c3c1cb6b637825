use ec_keys::alg::AlgorithmDescriptor;
use ec_keys::alg::DigestAlgorithm;
use ec_keys::bigint::BigInt;
use ec_keys::curves::curve_key_size;
use ec_keys::curves::curve_name;
use ec_keys::curves::CurveId;
use ec_keys::curves::CurveSpec;
use ec_keys::eckey::derive_private_key;
use ec_keys::eckey::from_public_bytes;
use ec_keys::eckey::generate_private_key;
use ec_keys::eckey::PrivateNumbers;
use ec_keys::eckey::PublicNumbers;
use ec_keys::InvalidKeyKind;
use ec_keys::KeyError;
use ec_keys::UnsupportedReason;

fn p256() -> CurveSpec {
    CurveSpec { name: "secp256r1".to_owned(), key_size: 256, is_ec_instance: true }
}

fn curve_spec(id: CurveId) -> CurveSpec {
    CurveSpec { name: curve_name(id), key_size: curve_key_size(id), is_ec_instance: true }
}

/// Adds one to a big-endian magnitude.
fn plus_one(mag: &[u8]) -> Vec<u8> {
    let mut out = mag.to_vec();
    for i in (0..out.len()).rev() {
        if out[i] == 255 {
            out[i] = 0;
        } else {
            out[i] += 1;
            return out;
        }
    }
    let mut wider = vec![1u8];
    wider.extend(out);
    wider
}

#[test]
fn generated_key_has_curve_key_size() {
    let key = generate_private_key(&p256()).unwrap();
    assert_eq!(key.key_size(), 256);
    assert_eq!(key.curve.id, CurveId::Secp256R1);
    let public = key.public_key().unwrap();
    assert_eq!(public.key_size(), 256);
}

#[test]
fn public_numbers_round_trip_reconstructs_equal_key() {
    let key = generate_private_key(&p256()).unwrap();
    let public = key.public_key().unwrap();
    let numbers = public.public_numbers().unwrap();
    assert_eq!(numbers.curve.name, "secp256r1");
    assert_eq!(numbers.curve.key_size, 256);
    let rebuilt = numbers.public_key().unwrap();
    assert!(rebuilt.equals(&public));
    assert!(public.equals(&rebuilt));
}

#[test]
fn private_numbers_round_trip_succeeds() {
    let key = generate_private_key(&p256()).unwrap();
    let numbers = key.private_numbers().unwrap();
    let rebuilt = numbers.private_key().unwrap();
    assert!(rebuilt.public_key().unwrap().equals(&key.public_key().unwrap()));
}

#[test]
fn perturbed_public_numbers_are_invalid() {
    let key = generate_private_key(&p256()).unwrap();
    let numbers = key.private_numbers().unwrap();
    let x = numbers.public_numbers.x.magnitude().clone();
    let y = numbers.public_numbers.y.magnitude().clone();

    let bad_x = PrivateNumbers::new(
        numbers.private_value.clone(),
        PublicNumbers::new(
            BigInt::new(false, plus_one(&x)),
            BigInt::new(false, y.clone()),
            p256(),
        )
        .unwrap(),
    );
    assert!(matches!(
        bad_x.private_key().unwrap_err(),
        KeyError::InvalidKey(_)
    ));

    let bad_y = PrivateNumbers::new(
        numbers.private_value.clone(),
        PublicNumbers::new(BigInt::new(false, x), BigInt::new(false, plus_one(&y)), p256())
            .unwrap(),
    );
    assert!(matches!(
        bad_y.private_key().unwrap_err(),
        KeyError::InvalidKey(_)
    ));
}

#[test]
fn negative_x_is_invalid_key_on_every_curve() {
    let minus_one = BigInt::new(true, vec![1]);
    let zero = BigInt::zero();
    let curves = vec![
        CurveId::Secp192R1,
        CurveId::Secp224R1,
        CurveId::Secp256R1,
        CurveId::Secp384R1,
        CurveId::Secp521R1,
        CurveId::Secp256K1,
        CurveId::Sect233R1,
        CurveId::Sect283R1,
        CurveId::Sect409R1,
        CurveId::Sect571R1,
        CurveId::Sect163R2,
        CurveId::Sect163K1,
        CurveId::Sect233K1,
        CurveId::Sect283K1,
        CurveId::Sect409K1,
        CurveId::Sect571K1,
        CurveId::BrainpoolP256R1,
        CurveId::BrainpoolP384R1,
        CurveId::BrainpoolP512R1,
    ];
    for id in curves {
        let numbers =
            PublicNumbers::new(minus_one.clone(), zero.clone(), curve_spec(id)).unwrap();
        assert_eq!(
            numbers.public_key().unwrap_err(),
            KeyError::InvalidKey(InvalidKeyKind::NegativeCoordinates)
        );
    }
}

#[test]
fn derive_then_numbers_round_trip() {
    let key = generate_private_key(&p256()).unwrap();
    let numbers = key.private_numbers().unwrap();
    let derived = derive_private_key(&numbers.private_value, &p256()).unwrap();
    assert!(derived.public_key().unwrap().equals(&key.public_key().unwrap()));
}

#[test]
fn sign_then_verify_round_trip() {
    let key = generate_private_key(&p256()).unwrap();
    let public = key.public_key().unwrap();
    let message = b"sign me, maybe";
    let alg = AlgorithmDescriptor::Ecdsa(DigestAlgorithm::Sha256);
    let signature = key.sign(message, &alg).unwrap();
    public.verify(&signature, message, &alg).unwrap();

    let mut flipped = message.to_vec();
    flipped[0] ^= 1;
    assert_eq!(
        public.verify(&signature, &flipped, &alg).unwrap_err(),
        KeyError::InvalidSignature
    );
}

#[test]
fn sign_and_verify_need_ecdsa_capability() {
    let key = generate_private_key(&p256()).unwrap();
    let public = key.public_key().unwrap();
    assert_eq!(
        key.sign(b"m", &AlgorithmDescriptor::Ecdh).unwrap_err(),
        KeyError::UnsupportedAlgorithm(UnsupportedReason::UnsupportedPublicKeyAlgorithm)
    );
    assert_eq!(
        public
            .verify(b"s", b"m", &AlgorithmDescriptor::Other)
            .unwrap_err(),
        KeyError::UnsupportedAlgorithm(UnsupportedReason::UnsupportedPublicKeyAlgorithm)
    );
}

#[test]
fn exchange_is_symmetric() {
    let a = generate_private_key(&p256()).unwrap();
    let b = generate_private_key(&p256()).unwrap();
    let a_pub = a.public_key().unwrap();
    let b_pub = b.public_key().unwrap();
    let ab = a.exchange(&AlgorithmDescriptor::Ecdh, &b_pub).unwrap();
    let ba = b.exchange(&AlgorithmDescriptor::Ecdh, &a_pub).unwrap();
    assert_eq!(ab, ba);
    assert!(!ab.is_empty());
}

#[test]
fn copied_public_key_is_equivalent() {
    let public = generate_private_key(&p256()).unwrap().public_key().unwrap();
    let copy = public.clone();
    assert!(copy.equals(&public));
    assert_eq!(copy.key_size(), public.key_size());
}

#[test]
fn exchange_on_mismatched_curves_fails() {
    let a = generate_private_key(&p256()).unwrap();
    let b_spec =
        CurveSpec { name: "secp384r1".to_owned(), key_size: 384, is_ec_instance: true };
    let b_pub = generate_private_key(&b_spec).unwrap().public_key().unwrap();
    let err = a.exchange(&AlgorithmDescriptor::Ecdh, &b_pub).unwrap_err();
    assert!(matches!(err, KeyError::Internal(_)));
}

#[test]
fn exchange_needs_ecdh_capability() {
    let a = generate_private_key(&p256()).unwrap();
    let b_pub = generate_private_key(&p256()).unwrap().public_key().unwrap();
    assert_eq!(
        a.exchange(&AlgorithmDescriptor::Ecdsa(DigestAlgorithm::Sha256), &b_pub)
            .unwrap_err(),
        KeyError::UnsupportedAlgorithm(UnsupportedReason::UnsupportedExchangeAlgorithm)
    );
}

#[test]
fn raw_point_bytes_round_trip() {
    let key = generate_private_key(&p256()).unwrap();
    let numbers = key.public_key().unwrap().public_numbers().unwrap();
    // Uncompressed encoding: 0x04 then the two coordinates, left-padded
    // to the 32-byte field width.
    let mut encoded = vec![4u8];
    let x = numbers.x.magnitude().clone();
    let y = numbers.y.magnitude().clone();
    encoded.extend(std::iter::repeat(0u8).take(32 - x.len()));
    encoded.extend(x);
    encoded.extend(std::iter::repeat(0u8).take(32 - y.len()));
    encoded.extend(y);
    let rebuilt = from_public_bytes(&p256(), &encoded).unwrap();
    assert!(rebuilt.equals(&key.public_key().unwrap()));
}

#[test]
fn malformed_point_bytes_are_invalid() {
    let err = from_public_bytes(&p256(), &[4u8, 1, 2, 3]).unwrap_err();
    assert!(matches!(err, KeyError::InvalidKey(_)));
}

#[test]
fn generate_rejects_unknown_curve() {
    let spec = CurveSpec {
        name: "no-such-curve".to_owned(),
        key_size: 0,
        is_ec_instance: true,
    };
    assert_eq!(
        generate_private_key(&spec).unwrap_err(),
        KeyError::UnsupportedAlgorithm(UnsupportedReason::UnsupportedEllipticCurve)
    );
}
