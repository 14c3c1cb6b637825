use ec_keys::curves::lookup_curve;
use ec_keys::curves::curve_for_nid;
use ec_keys::curves::curve_key_size;
use ec_keys::curves::curve_name;
use ec_keys::curves::curve_nid;
use ec_keys::curves::curve_supported;
use ec_keys::curves::describe;
use ec_keys::curves::resolve;
use ec_keys::curves::CurveId;
use ec_keys::curves::CurveSpec;
use ec_keys::KeyError;
use ec_keys::UnsupportedReason;

fn all_curves() -> Vec<CurveId> {
    vec![
        CurveId::Secp192R1,
        CurveId::Secp224R1,
        CurveId::Secp256R1,
        CurveId::Secp384R1,
        CurveId::Secp521R1,
        CurveId::Secp256K1,
        CurveId::Sect233R1,
        CurveId::Sect283R1,
        CurveId::Sect409R1,
        CurveId::Sect571R1,
        CurveId::Sect163R2,
        CurveId::Sect163K1,
        CurveId::Sect233K1,
        CurveId::Sect283K1,
        CurveId::Sect409K1,
        CurveId::Sect571K1,
        CurveId::BrainpoolP256R1,
        CurveId::BrainpoolP384R1,
        CurveId::BrainpoolP512R1,
    ]
}

fn spec_for(id: CurveId) -> CurveSpec {
    CurveSpec { name: curve_name(id), key_size: curve_key_size(id), is_ec_instance: true }
}

#[test]
fn resolve_describe_round_trip_all_names() {
    for id in all_curves() {
        let resolved = resolve(&spec_for(id), false).unwrap();
        assert!(!resolved.legacy_warning);
        // The native handle built by the resolution carries the same
        // numeric identifier the registry assigned the curve.
        let native_nid = resolved.group.curve_name().unwrap().as_raw();
        assert_eq!(native_nid, curve_nid(id));
        let described = describe(Some(native_nid), false).unwrap();
        assert_eq!(described.name(), curve_name(id));
        assert_eq!(described.key_size(), curve_key_size(id));
    }
}

#[test]
fn nid_table_round_trips() {
    for id in all_curves() {
        assert_eq!(curve_for_nid(curve_nid(id)), Some(id));
        assert_eq!(lookup_curve(&curve_name(id)), Some(id));
    }
    assert_eq!(curve_for_nid(0), None);
}

#[test]
fn registry_exact_values() {
    assert_eq!(curve_name(CurveId::Secp256R1), "secp256r1");
    assert_eq!(curve_nid(CurveId::Secp256R1), 415);
    assert_eq!(curve_key_size(CurveId::Secp256R1), 256);
    assert_eq!(curve_key_size(CurveId::Secp521R1), 521);
    assert_eq!(curve_key_size(CurveId::Sect571R1), 570);
    assert_eq!(curve_key_size(CurveId::Sect571K1), 571);
    assert_eq!(curve_name(CurveId::BrainpoolP384R1), "brainpoolP384r1");
}

#[test]
fn unknown_curve_name_is_unsupported() {
    let spec = CurveSpec {
        name: "secp999r1".to_owned(),
        key_size: 999,
        is_ec_instance: true,
    };
    let err = resolve(&spec, false).unwrap_err();
    assert_eq!(
        err,
        KeyError::UnsupportedAlgorithm(UnsupportedReason::UnsupportedEllipticCurve)
    );
    assert!(!curve_supported(&spec));
}

#[test]
fn non_instance_descriptor_is_type_mismatch() {
    let spec = CurveSpec {
        name: "secp256r1".to_owned(),
        key_size: 256,
        is_ec_instance: false,
    };
    assert_eq!(resolve(&spec, false).unwrap_err(), KeyError::TypeMismatch);
    assert!(!curve_supported(&spec));
    // Legacy leniency tolerates the class-style argument and reports it.
    let resolved = resolve(&spec, true).unwrap();
    assert!(resolved.legacy_warning);
    assert_eq!(resolved.descriptor.id, CurveId::Secp256R1);
}

#[test]
fn describe_rejects_explicit_and_unknown() {
    let err = describe(None, false).unwrap_err();
    assert_eq!(
        err,
        KeyError::UnsupportedAlgorithm(UnsupportedReason::ExplicitOrUnknownCurve)
    );
    let err = describe(Some(415), true).unwrap_err();
    assert_eq!(
        err,
        KeyError::UnsupportedAlgorithm(UnsupportedReason::ExplicitOrUnknownCurve)
    );
    let err = describe(Some(12345), false).unwrap_err();
    assert_eq!(
        err,
        KeyError::UnsupportedAlgorithm(UnsupportedReason::UnsupportedEllipticCurve)
    );
}

#[test]
fn curve_supported_all_registry_names() {
    for id in all_curves() {
        assert!(curve_supported(&spec_for(id)));
    }
}
