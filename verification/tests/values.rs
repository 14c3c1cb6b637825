use ec_keys::bigint::BigInt;
use ec_keys::curves::CurveSpec;
use ec_keys::eckey::generate_private_key;
use ec_keys::eckey::PrivateNumbers;
use ec_keys::eckey::PublicNumbers;
use ec_keys::loader::family_of_id;
use ec_keys::loader::settle_private_key_load;
use ec_keys::loader::CallbackUse;
use ec_keys::loader::KeyFamily;
use ec_keys::KeyError;
use ec_keys::PasswordProblem;

fn p256() -> CurveSpec {
    CurveSpec { name: "secp256r1".to_owned(), key_size: 256, is_ec_instance: true }
}

#[test]
fn bigint_drops_leading_zeroes() {
    let n = BigInt::new(false, vec![0, 0, 1, 2]);
    assert_eq!(n.magnitude().as_slice(), &[1, 2]);
    assert!(!n.is_negative());
}

#[test]
fn bigint_negative_zero_is_zero() {
    let n = BigInt::new(true, vec![0, 0]);
    assert!(!n.is_negative());
    assert!(n == BigInt::zero());
    assert!(n.eq_value(&BigInt::zero()));
}

#[test]
fn bigint_equality_is_numeric() {
    let a = BigInt::new(false, vec![0, 7]);
    let b = BigInt::new(false, vec![7]);
    assert!(a.eq_value(&b));
    assert!(a == b);
    let c = BigInt::new(true, vec![7]);
    assert!(!a.eq_value(&c));
    assert!(a != c);
    assert!(c.is_negative());
}

#[test]
fn settle_covers_the_password_policy() {
    let (unused, used_once, used_again) =
        (CallbackUse::Unused, CallbackUse::UsedOnce, CallbackUse::UsedAgain);
    assert!(settle_private_key_load(true, unused, false, false).is_ok());
    assert!(settle_private_key_load(true, used_once, false, true).is_ok());
    assert_eq!(
        settle_private_key_load(true, unused, false, true).unwrap_err(),
        KeyError::PasswordError(PasswordProblem::SuppliedButKeyNotEncrypted)
    );
    assert_eq!(
        settle_private_key_load(false, used_once, false, true).unwrap_err(),
        KeyError::PasswordError(PasswordProblem::Incorrect)
    );
    assert_eq!(
        settle_private_key_load(false, used_once, false, false).unwrap_err(),
        KeyError::PasswordError(PasswordProblem::Required)
    );
    assert_eq!(
        settle_private_key_load(false, used_again, false, true).unwrap_err(),
        KeyError::PasswordError(PasswordProblem::AmbiguousUse)
    );
    assert_eq!(
        settle_private_key_load(true, used_once, true, true).unwrap_err(),
        KeyError::PasswordError(PasswordProblem::TooLong)
    );
    match settle_private_key_load(false, unused, false, false).unwrap_err() {
        KeyError::MalformedEncoding(m) => assert_eq!(m, "Could not deserialize key data."),
        other => panic!("expected MalformedEncoding, got {:?}", other),
    }
}

#[test]
fn family_table_exact_values() {
    assert_eq!(family_of_id(6), Some(KeyFamily::Rsa));
    assert_eq!(family_of_id(912), Some(KeyFamily::RsaPss));
    assert_eq!(family_of_id(116), Some(KeyFamily::Dsa));
    assert_eq!(family_of_id(28), Some(KeyFamily::Dh));
    assert_eq!(family_of_id(920), Some(KeyFamily::Dhx));
    assert_eq!(family_of_id(408), Some(KeyFamily::Ec));
    assert_eq!(family_of_id(1034), Some(KeyFamily::X25519));
    assert_eq!(family_of_id(1035), Some(KeyFamily::X448));
    assert_eq!(family_of_id(1087), Some(KeyFamily::Ed25519));
    assert_eq!(family_of_id(1088), Some(KeyFamily::Ed448));
    assert_eq!(family_of_id(894), None);
    // The table matches what the backend stamps on real key material.
    assert_eq!(openssl::pkey::Id::EC.as_raw(), 408);
    assert_eq!(openssl::pkey::Id::RSA.as_raw(), 6);
    assert_eq!(openssl::pkey::Id::ED25519.as_raw(), 1087);
}

#[test]
fn public_numbers_need_the_curve_capability() {
    let spec = CurveSpec { name: "secp256r1".to_owned(), key_size: 256, is_ec_instance: false };
    assert_eq!(
        PublicNumbers::new(BigInt::zero(), BigInt::zero(), spec).unwrap_err(),
        KeyError::TypeMismatch
    );
}

#[test]
fn numbers_equality_ignores_capability_flag() {
    let a = PublicNumbers::new(
        BigInt::new(false, vec![1]),
        BigInt::new(false, vec![2]),
        p256(),
    )
    .unwrap();
    let mut other_spec = p256();
    other_spec.is_ec_instance = false;
    let b = PublicNumbers {
        x: BigInt::new(false, vec![1]),
        y: BigInt::new(false, vec![2]),
        curve: other_spec,
    };
    assert!(a == b);
    let c = PublicNumbers::new(
        BigInt::new(false, vec![1]),
        BigInt::new(false, vec![3]),
        p256(),
    )
    .unwrap();
    assert!(a != c);
}

#[test]
fn private_numbers_equality() {
    let make = |scalar: u8| {
        PrivateNumbers::new(
            BigInt::new(false, vec![scalar]),
            PublicNumbers::new(
                BigInt::new(false, vec![1]),
                BigInt::new(false, vec![2]),
                p256(),
            )
            .unwrap(),
        )
    };
    assert!(make(5) == make(5));
    assert!(make(5) != make(6));
}

#[test]
fn private_numbers_from_key_describe_its_curve() {
    let key = generate_private_key(&p256()).unwrap();
    let numbers = key.private_numbers().unwrap();
    assert_eq!(numbers.public_numbers.curve.name, "secp256r1");
    assert_eq!(numbers.public_numbers.curve.key_size, 256);
    assert!(numbers.public_numbers.curve.is_ec_instance);
    assert!(!numbers.private_value.is_negative());
}

#[test]
fn error_messages_are_stable() {
    assert_eq!(
        KeyError::InvalidKey(ec_keys::InvalidKeyKind::NegativeCoordinates).message(),
        "Invalid EC key. Both x and y must be non-negative."
    );
    assert_eq!(
        KeyError::PasswordError(PasswordProblem::SuppliedButKeyNotEncrypted).message(),
        "Password was given but private key is not encrypted."
    );
    assert_eq!(KeyError::MalformedEncoding("boom".to_owned()).message(), "boom");
}
