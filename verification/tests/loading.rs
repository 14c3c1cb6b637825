use ec_keys::curves::CurveId;
use ec_keys::curves::CurveSpec;
use ec_keys::eckey::generate_private_key;
use ec_keys::loader::load_der_private_key;
use ec_keys::loader::load_der_public_key;
use ec_keys::loader::load_der_public_key_bytes;
use ec_keys::loader::load_pem_private_key;
use ec_keys::loader::load_pem_public_key;
use ec_keys::loader::public_key_from_pkey;
use ec_keys::loader::KeyFamily;
use ec_keys::loader::LoadedPrivateKey;
use ec_keys::loader::LoadedPublicKey;
use ec_keys::KeyError;
use ec_keys::PasswordProblem;
use ec_keys::UnsupportedReason;

fn p256() -> CurveSpec {
    CurveSpec { name: "secp256r1".to_owned(), key_size: 256, is_ec_instance: true }
}

#[test]
fn test_public_key_from_pkey_unknown_key() {
    let pkey =
        openssl::pkey::PKey::public_key_from_raw_bytes(&[0; 32], openssl::pkey::Id::X25519)
            .unwrap();
    // Pass a nonsense id for this key to probe the unsupported-algorithm
    // path.
    assert!(public_key_from_pkey(&pkey, openssl::pkey::Id::CMAC.as_raw()).is_err());
}

#[test]
fn wrong_password_is_a_password_error_not_malformed() {
    let key = generate_private_key(&p256()).unwrap();
    let pem = key.private_bytes_pem_encrypted(b"correct").unwrap();
    let err = load_pem_private_key(&pem, Some(b"wrong")).unwrap_err();
    assert_eq!(err, KeyError::PasswordError(PasswordProblem::Incorrect));
    assert!(!matches!(err, KeyError::MalformedEncoding(_)));
}

#[test]
fn missing_password_on_encrypted_pem() {
    let key = generate_private_key(&p256()).unwrap();
    let pem = key.private_bytes_pem_encrypted(b"correct").unwrap();
    assert_eq!(
        load_pem_private_key(&pem, None).unwrap_err(),
        KeyError::PasswordError(PasswordProblem::Required)
    );
}

#[test]
fn correct_password_loads_encrypted_pem() {
    let key = generate_private_key(&p256()).unwrap();
    let pem = key.private_bytes_pem_encrypted(b"correct").unwrap();
    let loaded = load_pem_private_key(&pem, Some(b"correct")).unwrap();
    match loaded {
        LoadedPrivateKey::Ec(k) => {
            assert_eq!(k.curve.id, CurveId::Secp256R1);
            assert!(k.public_key().unwrap().equals(&key.public_key().unwrap()));
        },
        LoadedPrivateKey::Other(..) => panic!("expected an EC key"),
    }
}

#[test]
fn password_on_unencrypted_der_is_rejected() {
    let key = generate_private_key(&p256()).unwrap();
    let der = key.private_bytes_der().unwrap();
    let err = load_der_private_key(&der, Some(b"anything")).unwrap_err();
    assert_eq!(
        err,
        KeyError::PasswordError(PasswordProblem::SuppliedButKeyNotEncrypted)
    );
    // The same bytes load fine without a password.
    assert!(load_der_private_key(&der, None).is_ok());
}

#[test]
fn password_on_unencrypted_pem_is_rejected() {
    let key = generate_private_key(&p256()).unwrap();
    let pem = key.private_bytes_pem().unwrap();
    assert_eq!(
        load_pem_private_key(&pem, Some(b"anything")).unwrap_err(),
        KeyError::PasswordError(PasswordProblem::SuppliedButKeyNotEncrypted)
    );
    assert!(load_pem_private_key(&pem, None).is_ok());
}

#[test]
fn der_private_key_round_trip() {
    let key = generate_private_key(&p256()).unwrap();
    let der = key.private_bytes_der().unwrap();
    match load_der_private_key(&der, None).unwrap() {
        LoadedPrivateKey::Ec(k) => {
            assert_eq!(k.curve.id, CurveId::Secp256R1);
            assert!(k.public_key().unwrap().equals(&key.public_key().unwrap()));
        },
        LoadedPrivateKey::Other(..) => panic!("expected an EC key"),
    }
}

#[test]
fn garbage_der_private_key_is_malformed() {
    let err = load_der_private_key(&[1, 2, 3, 4], None).unwrap_err();
    match err {
        KeyError::MalformedEncoding(m) => {
            assert_eq!(m, "Could not deserialize key data.");
        },
        other => panic!("expected MalformedEncoding, got {:?}", other),
    }
}

#[test]
fn encrypted_der_pkcs8_password_paths() {
    let key = generate_private_key(&p256()).unwrap();
    let cipher = openssl::symm::Cipher::aes_256_cbc();
    let der = key.pkey.private_key_to_pkcs8_passphrase(cipher, b"correct").unwrap();
    assert_eq!(
        load_der_private_key(&der, Some(b"wrong")).unwrap_err(),
        KeyError::PasswordError(PasswordProblem::Incorrect)
    );
    assert_eq!(
        load_der_private_key(&der, None).unwrap_err(),
        KeyError::PasswordError(PasswordProblem::Required)
    );
    match load_der_private_key(&der, Some(b"correct")).unwrap() {
        LoadedPrivateKey::Ec(k) => {
            assert!(k.public_key().unwrap().equals(&key.public_key().unwrap()));
        },
        LoadedPrivateKey::Other(..) => panic!("expected an EC key"),
    }
}

#[test]
fn rsa_private_key_dispatches_to_its_family() {
    let rsa = openssl::rsa::Rsa::generate(2048).unwrap();
    let pkey = openssl::pkey::PKey::from_rsa(rsa).unwrap();
    let der = pkey.private_key_to_pkcs8().unwrap();
    match load_der_private_key(&der, None).unwrap() {
        LoadedPrivateKey::Other(family, _) => assert_eq!(family, KeyFamily::Rsa),
        LoadedPrivateKey::Ec(_) => panic!("expected an RSA key"),
    }
}

#[test]
fn der_public_key_round_trip() {
    let key = generate_private_key(&p256()).unwrap();
    let public = key.public_key().unwrap();
    let der = public.public_bytes_der().unwrap();
    match load_der_public_key(&der).unwrap() {
        LoadedPublicKey::Ec(k) => {
            assert_eq!(k.curve.id, CurveId::Secp256R1);
            assert!(k.equals(&public));
        },
        LoadedPublicKey::Other(..) => panic!("expected an EC key"),
    }
}

#[test]
fn pem_public_key_round_trip() {
    let key = generate_private_key(&p256()).unwrap();
    let public = key.public_key().unwrap();
    let pem = public.public_bytes_pem().unwrap();
    match load_pem_public_key(&pem).unwrap() {
        LoadedPublicKey::Ec(k) => assert!(k.equals(&public)),
        LoadedPublicKey::Other(..) => panic!("expected an EC key"),
    }
}

#[test]
fn raw_pkcs1_rsa_public_key_uses_fallback_parse() {
    let rsa = openssl::rsa::Rsa::generate(2048).unwrap();
    let pkcs1 = rsa.public_key_to_der_pkcs1().unwrap();
    match load_der_public_key_bytes(&pkcs1).unwrap() {
        LoadedPublicKey::Other(family, _) => assert_eq!(family, KeyFamily::Rsa),
        LoadedPublicKey::Ec(_) => panic!("expected an RSA key"),
    }
}

#[test]
fn pem_rsa_public_key_label_dispatch() {
    let rsa = openssl::rsa::Rsa::generate(2048).unwrap();
    let pem = rsa.public_key_to_pem_pkcs1().unwrap();
    match load_pem_public_key(&pem).unwrap() {
        LoadedPublicKey::Other(family, _) => assert_eq!(family, KeyFamily::Rsa),
        LoadedPublicKey::Ec(_) => panic!("expected an RSA key"),
    }
}

#[test]
fn pem_spki_rsa_public_key_generic_dispatch() {
    let rsa = openssl::rsa::Rsa::generate(2048).unwrap();
    let pem = rsa.public_key_to_pem().unwrap();
    match load_pem_public_key(&pem).unwrap() {
        LoadedPublicKey::Other(family, _) => assert_eq!(family, KeyFamily::Rsa),
        LoadedPublicKey::Ec(_) => panic!("expected an RSA key"),
    }
}

#[test]
fn unrelated_pem_label_is_malformed_framing() {
    let block = pem::Pem::new("CERTIFICATE", vec![1u8, 2, 3]);
    let encoded = pem::encode(&block);
    let err = load_pem_public_key(encoded.as_bytes()).unwrap_err();
    assert!(matches!(err, KeyError::MalformedEncoding(_)));
}

#[test]
fn garbage_pem_public_key_is_malformed() {
    let err = load_pem_public_key(b"this is not pem at all").unwrap_err();
    assert!(matches!(err, KeyError::MalformedEncoding(_)));
}

#[test]
fn garbage_der_public_key_is_malformed() {
    let err = load_der_public_key(&[9, 9, 9]).unwrap_err();
    assert!(matches!(err, KeyError::MalformedEncoding(_)));
}

#[test]
fn ed25519_private_key_dispatches_to_its_family() {
    let key = openssl::pkey::PKey::generate_ed25519().unwrap();
    let der = key.private_key_to_pkcs8().unwrap();
    match load_der_private_key(&der, None).unwrap() {
        LoadedPrivateKey::Other(family, _) => assert_eq!(family, KeyFamily::Ed25519),
        LoadedPrivateKey::Ec(_) => panic!("expected an Ed25519 key"),
    }
}

#[test]
fn unsupported_key_type_reason_code() {
    let pkey =
        openssl::pkey::PKey::public_key_from_raw_bytes(&[0; 32], openssl::pkey::Id::X25519)
            .unwrap();
    assert_eq!(
        public_key_from_pkey(&pkey, openssl::pkey::Id::CMAC.as_raw()).unwrap_err(),
        KeyError::UnsupportedAlgorithm(UnsupportedReason::UnsupportedKeyType)
    );
}
