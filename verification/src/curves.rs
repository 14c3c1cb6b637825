//! The curve-name registry.
//!
//! A fixed table maps well-known curve names to the backend's numeric
//! curve identifiers and to the key size callers see.  `resolve` validates
//! a caller-supplied descriptor and materialises native domain parameters;
//! `describe` goes the other way, from a native curve identity back to a
//! descriptor.  The table itself is immutable; native parameters are
//! rebuilt from it on each resolution, so concurrent use needs no locks
//! and duplicate construction is harmless.  The numeric identifiers
//! follow mainline OpenSSL's numbering; other libcrypto lineages number
//! a few of these curves differently and are not targeted here.

use vstd::prelude::*;

use crate::errors::KeyError;
use crate::errors::UnsupportedReason;
use crate::ossl;

verus! {

/// A named curve of the supported registry.
#[derive(Clone, Copy, PartialEq, Eq, Structural, Debug, Hash)]
pub enum CurveId {
    Secp192R1,
    Secp224R1,
    Secp256R1,
    Secp384R1,
    Secp521R1,
    Secp256K1,
    Sect233R1,
    Sect283R1,
    Sect409R1,
    Sect571R1,
    Sect163R2,
    Sect163K1,
    Sect233K1,
    Sect283K1,
    Sect409K1,
    Sect571K1,
    BrainpoolP256R1,
    BrainpoolP384R1,
    BrainpoolP512R1,
}

/// The well-known name of a curve.
pub open spec fn spec_curve_name(id: CurveId) -> Seq<char> {
    match id {
        CurveId::Secp192R1 => "secp192r1"@,
        CurveId::Secp224R1 => "secp224r1"@,
        CurveId::Secp256R1 => "secp256r1"@,
        CurveId::Secp384R1 => "secp384r1"@,
        CurveId::Secp521R1 => "secp521r1"@,
        CurveId::Secp256K1 => "secp256k1"@,
        CurveId::Sect233R1 => "sect233r1"@,
        CurveId::Sect283R1 => "sect283r1"@,
        CurveId::Sect409R1 => "sect409r1"@,
        CurveId::Sect571R1 => "sect571r1"@,
        CurveId::Sect163R2 => "sect163r2"@,
        CurveId::Sect163K1 => "sect163k1"@,
        CurveId::Sect233K1 => "sect233k1"@,
        CurveId::Sect283K1 => "sect283k1"@,
        CurveId::Sect409K1 => "sect409k1"@,
        CurveId::Sect571K1 => "sect571k1"@,
        CurveId::BrainpoolP256R1 => "brainpoolP256r1"@,
        CurveId::BrainpoolP384R1 => "brainpoolP384r1"@,
        CurveId::BrainpoolP512R1 => "brainpoolP512r1"@,
    }
}

/// The key size, in bits, of a curve: the bit length of a secret scalar.
pub open spec fn spec_key_size(id: CurveId) -> u32 {
    match id {
        CurveId::Secp192R1 => 192u32,
        CurveId::Secp224R1 => 224u32,
        CurveId::Secp256R1 => 256u32,
        CurveId::Secp384R1 => 384u32,
        CurveId::Secp521R1 => 521u32,
        CurveId::Secp256K1 => 256u32,
        CurveId::Sect233R1 => 233u32,
        CurveId::Sect283R1 => 283u32,
        CurveId::Sect409R1 => 409u32,
        CurveId::Sect571R1 => 570u32,
        CurveId::Sect163R2 => 163u32,
        CurveId::Sect163K1 => 163u32,
        CurveId::Sect233K1 => 233u32,
        CurveId::Sect283K1 => 283u32,
        CurveId::Sect409K1 => 409u32,
        CurveId::Sect571K1 => 571u32,
        CurveId::BrainpoolP256R1 => 256u32,
        CurveId::BrainpoolP384R1 => 384u32,
        CurveId::BrainpoolP512R1 => 512u32,
    }
}

/// The backend's numeric identifier for a curve (OpenSSL's NID numbering).
pub open spec fn spec_nid(id: CurveId) -> i32 {
    match id {
        CurveId::Secp192R1 => 409i32,
        CurveId::Secp224R1 => 713i32,
        CurveId::Secp256R1 => 415i32,
        CurveId::Secp384R1 => 715i32,
        CurveId::Secp521R1 => 716i32,
        CurveId::Secp256K1 => 714i32,
        CurveId::Sect233R1 => 727i32,
        CurveId::Sect283R1 => 730i32,
        CurveId::Sect409R1 => 732i32,
        CurveId::Sect571R1 => 734i32,
        CurveId::Sect163R2 => 723i32,
        CurveId::Sect163K1 => 721i32,
        CurveId::Sect233K1 => 726i32,
        CurveId::Sect283K1 => 729i32,
        CurveId::Sect409K1 => 731i32,
        CurveId::Sect571K1 => 733i32,
        CurveId::BrainpoolP256R1 => 927i32,
        CurveId::BrainpoolP384R1 => 931i32,
        CurveId::BrainpoolP512R1 => 933i32,
    }
}

/// The reverse of `spec_nid`: which supported curve a numeric identifier
/// denotes, if any.
pub open spec fn spec_id_for_nid(nid: i32) -> Option<CurveId> {
    if nid == 409i32 {
        Some(CurveId::Secp192R1)
    } else if nid == 713i32 {
        Some(CurveId::Secp224R1)
    } else if nid == 415i32 {
        Some(CurveId::Secp256R1)
    } else if nid == 715i32 {
        Some(CurveId::Secp384R1)
    } else if nid == 716i32 {
        Some(CurveId::Secp521R1)
    } else if nid == 714i32 {
        Some(CurveId::Secp256K1)
    } else if nid == 727i32 {
        Some(CurveId::Sect233R1)
    } else if nid == 730i32 {
        Some(CurveId::Sect283R1)
    } else if nid == 732i32 {
        Some(CurveId::Sect409R1)
    } else if nid == 734i32 {
        Some(CurveId::Sect571R1)
    } else if nid == 723i32 {
        Some(CurveId::Sect163R2)
    } else if nid == 721i32 {
        Some(CurveId::Sect163K1)
    } else if nid == 726i32 {
        Some(CurveId::Sect233K1)
    } else if nid == 729i32 {
        Some(CurveId::Sect283K1)
    } else if nid == 731i32 {
        Some(CurveId::Sect409K1)
    } else if nid == 733i32 {
        Some(CurveId::Sect571K1)
    } else if nid == 927i32 {
        Some(CurveId::BrainpoolP256R1)
    } else if nid == 931i32 {
        Some(CurveId::BrainpoolP384R1)
    } else if nid == 933i32 {
        Some(CurveId::BrainpoolP512R1)
    } else {
        None
    }
}

/// Which supported curve a name denotes, if any.
pub open spec fn spec_id_for_name(name: Seq<char>) -> Option<CurveId> {
    if name == "secp192r1"@ {
        Some(CurveId::Secp192R1)
    } else if name == "secp224r1"@ {
        Some(CurveId::Secp224R1)
    } else if name == "secp256r1"@ {
        Some(CurveId::Secp256R1)
    } else if name == "secp384r1"@ {
        Some(CurveId::Secp384R1)
    } else if name == "secp521r1"@ {
        Some(CurveId::Secp521R1)
    } else if name == "secp256k1"@ {
        Some(CurveId::Secp256K1)
    } else if name == "sect233r1"@ {
        Some(CurveId::Sect233R1)
    } else if name == "sect283r1"@ {
        Some(CurveId::Sect283R1)
    } else if name == "sect409r1"@ {
        Some(CurveId::Sect409R1)
    } else if name == "sect571r1"@ {
        Some(CurveId::Sect571R1)
    } else if name == "sect163r2"@ {
        Some(CurveId::Sect163R2)
    } else if name == "sect163k1"@ {
        Some(CurveId::Sect163K1)
    } else if name == "sect233k1"@ {
        Some(CurveId::Sect233K1)
    } else if name == "sect283k1"@ {
        Some(CurveId::Sect283K1)
    } else if name == "sect409k1"@ {
        Some(CurveId::Sect409K1)
    } else if name == "sect571k1"@ {
        Some(CurveId::Sect571K1)
    } else if name == "brainpoolP256r1"@ {
        Some(CurveId::BrainpoolP256R1)
    } else if name == "brainpoolP384r1"@ {
        Some(CurveId::BrainpoolP384R1)
    } else if name == "brainpoolP512r1"@ {
        Some(CurveId::BrainpoolP512R1)
    } else {
        None
    }
}

/// The name of a curve, as a fresh string.
pub fn curve_name(id: CurveId) -> (r: String)
    ensures
        r@ == spec_curve_name(id),
{
    match id {
        CurveId::Secp192R1 => "secp192r1".to_owned(),
        CurveId::Secp224R1 => "secp224r1".to_owned(),
        CurveId::Secp256R1 => "secp256r1".to_owned(),
        CurveId::Secp384R1 => "secp384r1".to_owned(),
        CurveId::Secp521R1 => "secp521r1".to_owned(),
        CurveId::Secp256K1 => "secp256k1".to_owned(),
        CurveId::Sect233R1 => "sect233r1".to_owned(),
        CurveId::Sect283R1 => "sect283r1".to_owned(),
        CurveId::Sect409R1 => "sect409r1".to_owned(),
        CurveId::Sect571R1 => "sect571r1".to_owned(),
        CurveId::Sect163R2 => "sect163r2".to_owned(),
        CurveId::Sect163K1 => "sect163k1".to_owned(),
        CurveId::Sect233K1 => "sect233k1".to_owned(),
        CurveId::Sect283K1 => "sect283k1".to_owned(),
        CurveId::Sect409K1 => "sect409k1".to_owned(),
        CurveId::Sect571K1 => "sect571k1".to_owned(),
        CurveId::BrainpoolP256R1 => "brainpoolP256r1".to_owned(),
        CurveId::BrainpoolP384R1 => "brainpoolP384r1".to_owned(),
        CurveId::BrainpoolP512R1 => "brainpoolP512r1".to_owned(),
    }
}

/// The key size of a curve, in bits.
pub fn curve_key_size(id: CurveId) -> (r: u32)
    ensures
        r == spec_key_size(id),
{
    match id {
        CurveId::Secp192R1 => 192,
        CurveId::Secp224R1 => 224,
        CurveId::Secp256R1 => 256,
        CurveId::Secp384R1 => 384,
        CurveId::Secp521R1 => 521,
        CurveId::Secp256K1 => 256,
        CurveId::Sect233R1 => 233,
        CurveId::Sect283R1 => 283,
        CurveId::Sect409R1 => 409,
        CurveId::Sect571R1 => 570,
        CurveId::Sect163R2 => 163,
        CurveId::Sect163K1 => 163,
        CurveId::Sect233K1 => 233,
        CurveId::Sect283K1 => 283,
        CurveId::Sect409K1 => 409,
        CurveId::Sect571K1 => 571,
        CurveId::BrainpoolP256R1 => 256,
        CurveId::BrainpoolP384R1 => 384,
        CurveId::BrainpoolP512R1 => 512,
    }
}

/// The backend's numeric identifier for a curve.
pub fn curve_nid(id: CurveId) -> (r: i32)
    ensures
        r == spec_nid(id),
{
    match id {
        CurveId::Secp192R1 => 409,
        CurveId::Secp224R1 => 713,
        CurveId::Secp256R1 => 415,
        CurveId::Secp384R1 => 715,
        CurveId::Secp521R1 => 716,
        CurveId::Secp256K1 => 714,
        CurveId::Sect233R1 => 727,
        CurveId::Sect283R1 => 730,
        CurveId::Sect409R1 => 732,
        CurveId::Sect571R1 => 734,
        CurveId::Sect163R2 => 723,
        CurveId::Sect163K1 => 721,
        CurveId::Sect233K1 => 726,
        CurveId::Sect283K1 => 729,
        CurveId::Sect409K1 => 731,
        CurveId::Sect571K1 => 733,
        CurveId::BrainpoolP256R1 => 927,
        CurveId::BrainpoolP384R1 => 931,
        CurveId::BrainpoolP512R1 => 933,
    }
}

/// The supported curve a numeric identifier denotes, if any.
pub fn curve_for_nid(nid: i32) -> (r: Option<CurveId>)
    ensures
        r == spec_id_for_nid(nid),
{
    if nid == 409 {
        Some(CurveId::Secp192R1)
    } else if nid == 713 {
        Some(CurveId::Secp224R1)
    } else if nid == 415 {
        Some(CurveId::Secp256R1)
    } else if nid == 715 {
        Some(CurveId::Secp384R1)
    } else if nid == 716 {
        Some(CurveId::Secp521R1)
    } else if nid == 714 {
        Some(CurveId::Secp256K1)
    } else if nid == 727 {
        Some(CurveId::Sect233R1)
    } else if nid == 730 {
        Some(CurveId::Sect283R1)
    } else if nid == 732 {
        Some(CurveId::Sect409R1)
    } else if nid == 734 {
        Some(CurveId::Sect571R1)
    } else if nid == 723 {
        Some(CurveId::Sect163R2)
    } else if nid == 721 {
        Some(CurveId::Sect163K1)
    } else if nid == 726 {
        Some(CurveId::Sect233K1)
    } else if nid == 729 {
        Some(CurveId::Sect283K1)
    } else if nid == 731 {
        Some(CurveId::Sect409K1)
    } else if nid == 733 {
        Some(CurveId::Sect571K1)
    } else if nid == 927 {
        Some(CurveId::BrainpoolP256R1)
    } else if nid == 931 {
        Some(CurveId::BrainpoolP384R1)
    } else if nid == 933 {
        Some(CurveId::BrainpoolP512R1)
    } else {
        None
    }
}

/// String equality against a literal, with its meaning over views.
pub(crate) fn string_eq_lit(a: &String, b: &str) -> (r: bool)
    ensures
        r == (a@ == b@),
{
    let y: String = b.to_owned();
    *a == y
}

/// The supported curve a name denotes, if any.
pub fn lookup_curve(name: &String) -> (r: Option<CurveId>)
    ensures
        r == spec_id_for_name(name@),
{
    if string_eq_lit(name, "secp192r1") {
        Some(CurveId::Secp192R1)
    } else if string_eq_lit(name, "secp224r1") {
        Some(CurveId::Secp224R1)
    } else if string_eq_lit(name, "secp256r1") {
        Some(CurveId::Secp256R1)
    } else if string_eq_lit(name, "secp384r1") {
        Some(CurveId::Secp384R1)
    } else if string_eq_lit(name, "secp521r1") {
        Some(CurveId::Secp521R1)
    } else if string_eq_lit(name, "secp256k1") {
        Some(CurveId::Secp256K1)
    } else if string_eq_lit(name, "sect233r1") {
        Some(CurveId::Sect233R1)
    } else if string_eq_lit(name, "sect283r1") {
        Some(CurveId::Sect283R1)
    } else if string_eq_lit(name, "sect409r1") {
        Some(CurveId::Sect409R1)
    } else if string_eq_lit(name, "sect571r1") {
        Some(CurveId::Sect571R1)
    } else if string_eq_lit(name, "sect163r2") {
        Some(CurveId::Sect163R2)
    } else if string_eq_lit(name, "sect163k1") {
        Some(CurveId::Sect163K1)
    } else if string_eq_lit(name, "sect233k1") {
        Some(CurveId::Sect233K1)
    } else if string_eq_lit(name, "sect283k1") {
        Some(CurveId::Sect283K1)
    } else if string_eq_lit(name, "sect409k1") {
        Some(CurveId::Sect409K1)
    } else if string_eq_lit(name, "sect571k1") {
        Some(CurveId::Sect571K1)
    } else if string_eq_lit(name, "brainpoolP256r1") {
        Some(CurveId::BrainpoolP256R1)
    } else if string_eq_lit(name, "brainpoolP384r1") {
        Some(CurveId::BrainpoolP384R1)
    } else if string_eq_lit(name, "brainpoolP512r1") {
        Some(CurveId::BrainpoolP512R1)
    } else {
        None
    }
}

/// A resolved curve of the registry; name and key size derive from `id`.
#[derive(Clone, Copy, PartialEq, Eq, Structural, Debug, Hash)]
pub struct CurveDescriptor {
    pub id: CurveId,
}

impl CurveDescriptor {
    /// The curve's well-known name.
    pub fn name(&self) -> (r: String)
        ensures
            r@ == spec_curve_name(self.id),
    {
        curve_name(self.id)
    }

    /// The curve's key size in bits.
    pub fn key_size(&self) -> (r: u32)
        ensures
            r == spec_key_size(self.id),
    {
        curve_key_size(self.id)
    }
}

/// A caller-supplied curve descriptor.  It is capability-checked, not
/// type-checked: `is_ec_instance` says whether the object satisfies the
/// elliptic-curve capability (name and key size of a curve instance).
#[derive(Clone, PartialEq, Eq, Debug)]
pub struct CurveSpec {
    pub name: String,
    pub key_size: u32,
    pub is_ec_instance: bool,
}

/// The pure part of `resolve`: which curve a caller-supplied descriptor
/// denotes, or which error rejects it.
pub open spec fn spec_resolve_id(spec: CurveSpec, allow_legacy: bool) -> Result<CurveId, KeyError> {
    if !spec.is_ec_instance && !allow_legacy {
        Err(KeyError::TypeMismatch)
    } else {
        match spec_id_for_name(spec.name@) {
            Some(id) => Ok(id),
            None => Err(KeyError::UnsupportedAlgorithm(UnsupportedReason::UnsupportedEllipticCurve)),
        }
    }
}

/// A successful resolution: the registry descriptor, the native domain
/// parameters, and whether the legacy class-style argument was tolerated.
#[derive(Debug)]
pub struct ResolvedCurve {
    pub descriptor: CurveDescriptor,
    pub group: openssl::ec::EcGroup,
    pub legacy_warning: bool,
}

/// The pure half of `resolve`: the capability check and the registry
/// lookup, without building native parameters.
pub fn resolve_id(spec: &CurveSpec, allow_legacy: bool) -> (r: Result<CurveId, KeyError>)
    ensures
        r == spec_resolve_id(*spec, allow_legacy),
{
    if !spec.is_ec_instance && !allow_legacy {
        return Err(KeyError::TypeMismatch);
    }
    match lookup_curve(&spec.name) {
        None => Err(KeyError::UnsupportedAlgorithm(UnsupportedReason::UnsupportedEllipticCurve)),
        Some(id) => Ok(id),
    }
}

/// Resolve a caller-supplied curve descriptor against the registry.
///
/// A descriptor without the curve capability is rejected with
/// `TypeMismatch` unless `allow_legacy` tolerates it (the caller then owes
/// its user a deprecation warning, reported in `legacy_warning`); an
/// unknown name is rejected as an unsupported elliptic curve.  `Internal`
/// arises only when the backend cannot build parameters for a curve the
/// registry knows.
pub fn resolve(spec: &CurveSpec, allow_legacy: bool) -> (r: Result<ResolvedCurve, KeyError>)
    ensures
        (match spec_resolve_id(*spec, allow_legacy) {
            Err(e) => r matches Err(e2) && e2 == e,
            Ok(id) => match r {
                Ok(res) => res.descriptor.id == id && res.legacy_warning == !spec.is_ec_instance,
                Err(e2) => e2 is Internal,
            },
        }),
{
    match resolve_id(spec, allow_legacy) {
        Err(e) => Err(e),
        Ok(id) => {
            let nid = curve_nid(id);
            match ossl::group_from_nid(nid) {
                None => Err(KeyError::Internal("could not build curve parameters".to_owned())),
                Some(group) => Ok(
                    ResolvedCurve {
                        descriptor: CurveDescriptor { id },
                        group,
                        legacy_warning: !spec.is_ec_instance,
                    },
                ),
            }
        },
    }
}

/// Non-throwing probe: true only if `resolve` without legacy leniency
/// succeeds.
pub fn curve_supported(spec: &CurveSpec) -> (r: bool)
    ensures
        spec_resolve_id(*spec, false) is Err ==> !r,
        r ==> spec_resolve_id(*spec, false) is Ok,
{
    match resolve(spec, false) {
        Ok(_) => true,
        Err(_) => false,
    }
}

/// What `describe` returns: the reverse mapping from a native curve
/// identity (its numeric identifier, if it has one, and whether it uses
/// explicit parameter encoding) to a registry descriptor.
pub open spec fn spec_describe(nid: Option<i32>, explicit: bool) -> Result<
    CurveDescriptor,
    KeyError,
> {
    match nid {
        None => Err(KeyError::UnsupportedAlgorithm(UnsupportedReason::ExplicitOrUnknownCurve)),
        Some(n) => {
            if explicit {
                Err(KeyError::UnsupportedAlgorithm(UnsupportedReason::ExplicitOrUnknownCurve))
            } else {
                match spec_id_for_nid(n) {
                    Some(id) => Ok(CurveDescriptor { id }),
                    None => Err(
                        KeyError::UnsupportedAlgorithm(UnsupportedReason::UnsupportedEllipticCurve),
                    ),
                }
            }
        },
    }
}

/// Describe a native curve by its numeric identifier and parameter
/// encoding.  A curve without a short name, or one marked as using
/// explicit parameters, is unsupported; a named curve outside the
/// registry is an unsupported elliptic curve.
pub fn describe(nid: Option<i32>, explicit: bool) -> (r: Result<CurveDescriptor, KeyError>)
    ensures
        r == spec_describe(nid, explicit),
{
    match nid {
        None => Err(KeyError::UnsupportedAlgorithm(UnsupportedReason::ExplicitOrUnknownCurve)),
        Some(n) => {
            if explicit {
                Err(KeyError::UnsupportedAlgorithm(UnsupportedReason::ExplicitOrUnknownCurve))
            } else {
                match curve_for_nid(n) {
                    Some(id) => Ok(CurveDescriptor { id }),
                    None => Err(
                        KeyError::UnsupportedAlgorithm(UnsupportedReason::UnsupportedEllipticCurve),
                    ),
                }
            }
        },
    }
}

/// Law: resolving a supported curve name and then describing the native
/// parameters the resolution denotes — their numeric identifier, with
/// named-parameter encoding — round-trips: the described descriptor
/// carries the same curve, hence the same name and the registry's key
/// size for it.  Resolution never reads the caller's `key_size` field,
/// so the described size agrees with the caller's exactly when that
/// field carried the registry's value.
pub proof fn lemma_resolve_describe_round_trip(spec: CurveSpec, allow_legacy: bool, id: CurveId)
    requires
        spec_resolve_id(spec, allow_legacy) == Ok::<CurveId, KeyError>(id),
    ensures
        spec_describe(Some(spec_nid(id)), false) == Ok::<CurveDescriptor, KeyError>(
            CurveDescriptor { id },
        ),
        spec_curve_name(id) == spec.name@,
{
}

} // verus!
