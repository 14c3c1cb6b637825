//! Trusted boundary to the `openssl` and `pem` crates.
//!
//! Every item here is believed, not proved: each wrapper's body only calls
//! the named backend functions and converts its arguments and result.  The
//! contracts state no more than the backend's source and documentation
//! plainly give; cryptographic outcomes are never promised, and the logic
//! that decides on a wrapper's result is verified in the callers.

use vstd::prelude::*;

use crate::alg::DigestAlgorithm;

verus! {

#[verifier::external_type_specification]
#[verifier::external_body]
pub struct ExEcGroup(openssl::ec::EcGroup);

#[verifier::external_type_specification]
#[verifier::external_body]
pub struct ExEcPoint(openssl::ec::EcPoint);

#[verifier::external_type_specification]
#[verifier::external_body]
#[verifier::reject_recursive_types(T)]
pub struct ExEcKey<T>(openssl::ec::EcKey<T>);

#[verifier::external_type_specification]
#[verifier::external_body]
#[verifier::reject_recursive_types(T)]
pub struct ExPKey<T>(openssl::pkey::PKey<T>);

#[verifier::external_type_specification]
#[verifier::external_body]
pub struct ExPublic(openssl::pkey::Public);

#[verifier::external_type_specification]
#[verifier::external_body]
pub struct ExPrivate(openssl::pkey::Private);

/// Relies on `openssl::ec::EcGroup::from_curve_name`: builds the domain
/// parameters of the named curve, `None` if the backend lacks the curve.
#[verifier::external_body]
pub(crate) fn group_from_nid(nid: i32) -> (r: Option<openssl::ec::EcGroup>) {
    openssl::ec::EcGroup::from_curve_name(openssl::nid::Nid::from_raw(nid)).ok()
}

/// Relies on `openssl::ec::EcKey::generate`: a fresh random key pair on
/// the group.  The result depends on the backend's randomness, so nothing
/// is promised of it.
#[verifier::external_body]
pub(crate) fn ec_generate(group: &openssl::ec::EcGroup) -> (r: Option<
    openssl::ec::EcKey<openssl::pkey::Private>,
>) {
    openssl::ec::EcKey::generate(group).ok()
}

/// Relies on `EcKeyRef::public_key` and `EcPointRef::is_infinity`: whether
/// the key's public point is the identity element of its own group.
#[verifier::external_body]
pub(crate) fn ec_key_is_infinity_priv(key: &openssl::ec::EcKey<openssl::pkey::Private>) -> (r:
    bool) {
    key.public_key().is_infinity(key.group())
}

/// Relies on `EcKeyRef::public_key` and `EcPointRef::is_infinity`: whether
/// the key's public point is the identity element of its own group.
#[verifier::external_body]
pub(crate) fn ec_key_is_infinity_pub(key: &openssl::ec::EcKey<openssl::pkey::Public>) -> (r:
    bool) {
    key.public_key().is_infinity(key.group())
}

/// Relies on `EcGroupRef::curve_name` and `EcGroupRef::asn1_flag`: the
/// numeric curve identifier of the key's group, if the group has one, and
/// whether the group is marked as using explicit parameter encoding.
#[verifier::external_body]
pub(crate) fn ec_key_curve_info_priv(key: &openssl::ec::EcKey<openssl::pkey::Private>) -> (r: (
    Option<i32>,
    bool,
)) {
    let explicit = key.group().asn1_flag() == openssl::ec::Asn1Flag::EXPLICIT_CURVE;
    match key.group().curve_name() {
        Some(nid) => (Some(nid.as_raw()), explicit),
        None => (None, explicit),
    }
}

/// Relies on `EcGroupRef::curve_name` and `EcGroupRef::asn1_flag`, as the
/// private-key variant does.
#[verifier::external_body]
pub(crate) fn ec_key_curve_info_pub(key: &openssl::ec::EcKey<openssl::pkey::Public>) -> (r: (
    Option<i32>,
    bool,
)) {
    let explicit = key.group().asn1_flag() == openssl::ec::Asn1Flag::EXPLICIT_CURVE;
    match key.group().curve_name() {
        Some(nid) => (Some(nid.as_raw()), explicit),
        None => (None, explicit),
    }
}

/// Relies on `EcPointRef::affine_coordinates_gfp` and `BigNumRef::to_vec`
/// (BN_bn2bin): the affine coordinates of the key's public point, as
/// minimal big-endian bytes — no leading zero byte, empty for zero.
#[verifier::external_body]
pub(crate) fn ec_key_affine_coordinates_priv(
    key: &openssl::ec::EcKey<openssl::pkey::Private>,
) -> (r: Option<(Vec<u8>, Vec<u8>)>)
    ensures
        (r matches Some(c) ==> (c.0@.len() == 0 || c.0@[0] != 0) && (c.1@.len() == 0 || c.1@[0]
            != 0)),
{
    let mut ctx = openssl::bn::BigNumContext::new().ok()?;
    let mut x = openssl::bn::BigNum::new().ok()?;
    let mut y = openssl::bn::BigNum::new().ok()?;
    key.public_key().affine_coordinates_gfp(key.group(), &mut x, &mut y, &mut ctx).ok()?;
    Some((x.to_vec(), y.to_vec()))
}

/// Relies on `EcPointRef::affine_coordinates_gfp` and `BigNumRef::to_vec`,
/// as the private-key variant does.
#[verifier::external_body]
pub(crate) fn ec_key_affine_coordinates_pub(key: &openssl::ec::EcKey<openssl::pkey::Public>) -> (r:
    Option<(Vec<u8>, Vec<u8>)>)
    ensures
        (r matches Some(c) ==> (c.0@.len() == 0 || c.0@[0] != 0) && (c.1@.len() == 0 || c.1@[0]
            != 0)),
{
    let mut ctx = openssl::bn::BigNumContext::new().ok()?;
    let mut x = openssl::bn::BigNum::new().ok()?;
    let mut y = openssl::bn::BigNum::new().ok()?;
    key.public_key().affine_coordinates_gfp(key.group(), &mut x, &mut y, &mut ctx).ok()?;
    Some((x.to_vec(), y.to_vec()))
}

/// Relies on `EcKeyRef::private_key` and `BigNumRef::to_vec` (BN_bn2bin):
/// the private scalar as minimal big-endian bytes (no leading zero byte).
#[verifier::external_body]
pub(crate) fn ec_key_private_scalar(key: &openssl::ec::EcKey<openssl::pkey::Private>) -> (r: Vec<
    u8,
>)
    ensures
        r@.len() == 0 || r@[0] != 0,
{
    key.private_key().to_vec()
}

/// Relies on `EcPoint::new` and `EcPointRef::set_affine_coordinates_gfp`:
/// builds the point with the given affine coordinates; the backend
/// rejects coordinates that do not satisfy the curve equation.
/// `BigNum::from_slice` asserts that its input length fits a C int, so
/// longer coordinates are excluded here rather than risked as a panic.
#[verifier::external_body]
pub(crate) fn point_from_affine(
    group: &openssl::ec::EcGroup,
    x_be: &Vec<u8>,
    y_be: &Vec<u8>,
) -> (r: Option<openssl::ec::EcPoint>)
    requires
        x_be@.len() <= 0x7fff_ffff,
        y_be@.len() <= 0x7fff_ffff,
{
    let x = openssl::bn::BigNum::from_slice(x_be).ok()?;
    let y = openssl::bn::BigNum::from_slice(y_be).ok()?;
    let mut point = openssl::ec::EcPoint::new(group).ok()?;
    let mut ctx = openssl::bn::BigNumContext::new().ok()?;
    point.set_affine_coordinates_gfp(group, &x, &y, &mut ctx).ok()?;
    Some(point)
}

/// Relies on `EcPoint::from_bytes` (EC_POINT_oct2point): decodes an
/// encoded point on the group.
#[verifier::external_body]
pub(crate) fn point_from_bytes(group: &openssl::ec::EcGroup, data: &[u8]) -> (r: Option<
    openssl::ec::EcPoint,
>) {
    let mut ctx = openssl::bn::BigNumContext::new().ok()?;
    openssl::ec::EcPoint::from_bytes(group, data, &mut ctx).ok()
}

/// Relies on `EcPointRef::is_infinity`: whether the point is the group's
/// identity element.
#[verifier::external_body]
pub(crate) fn point_is_infinity(
    group: &openssl::ec::EcGroup,
    point: &openssl::ec::EcPoint,
) -> (r: bool) {
    point.is_infinity(group)
}

/// Relies on `EcPoint::new` and `EcPointRef::mul_generator2`: the group
/// generator times the given scalar (big-endian magnitude with a sign).
/// `BigNum::from_slice` asserts that its input length fits a C int, so
/// longer scalars are excluded here rather than risked as a panic.
#[verifier::external_body]
pub(crate) fn mul_generator(
    group: &openssl::ec::EcGroup,
    negative: bool,
    scalar_be: &Vec<u8>,
) -> (r: Option<openssl::ec::EcPoint>)
    requires
        scalar_be@.len() <= 0x7fff_ffff,
{
    let mut scalar = openssl::bn::BigNum::from_slice(scalar_be).ok()?;
    scalar.set_negative(negative);
    let mut point = openssl::ec::EcPoint::new(group).ok()?;
    let mut ctx = openssl::bn::BigNumContext::new().ok()?;
    point.mul_generator2(group, &scalar, &mut ctx).ok()?;
    Some(point)
}

/// Relies on `EcPointRef::eq` (EC_POINT_cmp): whether two points on the
/// group are equal; `None` on a backend failure.
#[verifier::external_body]
pub(crate) fn point_eq(
    group: &openssl::ec::EcGroup,
    a: &openssl::ec::EcPoint,
    b: &openssl::ec::EcPoint,
) -> (r: Option<bool>) {
    let mut ctx = openssl::bn::BigNumContext::new().ok()?;
    a.eq(group, b, &mut ctx).ok()
}

/// Relies on `EcKey::from_public_key`: key material holding the given
/// public point on the group.
#[verifier::external_body]
pub(crate) fn ec_key_from_public_point(
    group: &openssl::ec::EcGroup,
    point: &openssl::ec::EcPoint,
) -> (r: Option<openssl::ec::EcKey<openssl::pkey::Public>>) {
    openssl::ec::EcKey::from_public_key(group, point).ok()
}

/// Relies on `EcKey::from_private_components`: key material holding the
/// given private scalar and public point; the backend only assembles
/// the components, and no ensures rests on more.  `BigNum::from_slice`
/// asserts that its input length fits a C int, so longer scalars are
/// excluded here rather than risked as a panic.
#[verifier::external_body]
pub(crate) fn ec_key_from_private_components(
    group: &openssl::ec::EcGroup,
    negative: bool,
    scalar_be: &Vec<u8>,
    point: &openssl::ec::EcPoint,
) -> (r: Option<openssl::ec::EcKey<openssl::pkey::Private>>)
    requires
        scalar_be@.len() <= 0x7fff_ffff,
{
    let mut scalar = openssl::bn::BigNum::from_slice(scalar_be).ok()?;
    scalar.set_negative(negative);
    openssl::ec::EcKey::from_private_components(group, &scalar, point).ok()
}

/// Relies on `EcKey::from_public_key` applied to the key's own group and
/// point: the public half of a private key, without the private scalar.
#[verifier::external_body]
pub(crate) fn ec_public_half(key: &openssl::ec::EcKey<openssl::pkey::Private>) -> (r: Option<
    openssl::ec::EcKey<openssl::pkey::Public>,
>) {
    openssl::ec::EcKey::from_public_key(key.group(), key.public_key()).ok()
}

/// Relies on `PKey::from_ec_key`: wraps EC key material in a general key
/// handle.
#[verifier::external_body]
pub(crate) fn pkey_from_ec_key_priv(key: openssl::ec::EcKey<openssl::pkey::Private>) -> (r: Option<
    openssl::pkey::PKey<openssl::pkey::Private>,
>) {
    openssl::pkey::PKey::from_ec_key(key).ok()
}

/// Relies on `PKey::from_ec_key`, as the private-key variant does.
#[verifier::external_body]
pub(crate) fn pkey_from_ec_key_pub(key: openssl::ec::EcKey<openssl::pkey::Public>) -> (r: Option<
    openssl::pkey::PKey<openssl::pkey::Public>,
>) {
    openssl::pkey::PKey::from_ec_key(key).ok()
}

/// Relies on `PKeyRef::ec_key`: the EC key material inside a general key
/// handle; `None` when the handle holds another algorithm's key.
#[verifier::external_body]
pub(crate) fn pkey_ec_key_priv(pkey: &openssl::pkey::PKey<openssl::pkey::Private>) -> (r: Option<
    openssl::ec::EcKey<openssl::pkey::Private>,
>) {
    pkey.ec_key().ok()
}

/// Relies on `PKeyRef::ec_key`, as the private-key variant does.
#[verifier::external_body]
pub(crate) fn pkey_ec_key_pub(pkey: &openssl::pkey::PKey<openssl::pkey::Public>) -> (r: Option<
    openssl::ec::EcKey<openssl::pkey::Public>,
>) {
    pkey.ec_key().ok()
}

/// Relies on `PKey`'s reference-counted `Clone` (EVP_PKEY_up_ref): a
/// shared handle to the same key material; nothing more is promised.
pub assume_specification<T>[ <openssl::pkey::PKey<T> as Clone>::clone ](
    k: &openssl::pkey::PKey<T>,
) -> openssl::pkey::PKey<T>;

/// Relies on `PKeyRef::public_eq` (EVP_PKEY_eq): cryptographic equality
/// of the public key material.
#[verifier::external_body]
pub(crate) fn pkey_public_eq(
    a: &openssl::pkey::PKey<openssl::pkey::Public>,
    b: &openssl::pkey::PKey<openssl::pkey::Public>,
) -> (r: bool) {
    a.public_eq(b)
}

/// Relies on `openssl::derive::Deriver` (new, set_peer, derive_to_vec):
/// one key-agreement derivation of a shared secret with the peer's
/// public key.
#[verifier::external_body]
pub(crate) fn derive_shared(
    key: &openssl::pkey::PKey<openssl::pkey::Private>,
    peer: &openssl::pkey::PKey<openssl::pkey::Public>,
) -> (r: Option<Vec<u8>>) {
    let mut deriver = openssl::derive::Deriver::new(key).ok()?;
    deriver.set_peer(peer).ok()?;
    deriver.derive_to_vec().ok()
}

/// The digest of a byte string under a named algorithm.  The value is a
/// function of the algorithm and the data alone; only the trusted
/// wrapper below says anything about it.
pub uninterp spec fn spec_digest(alg: DigestAlgorithm, data: Seq<u8>) -> Seq<u8>;

/// Relies on `openssl::hash::hash` with the named message digest: the
/// digest of the data, a function of the algorithm and data alone, with
/// the digest's fixed output size.
#[verifier::external_body]
pub(crate) fn digest(alg: &DigestAlgorithm, data: &[u8]) -> (r: Option<Vec<u8>>)
    ensures
        r matches Some(d) ==> d@ == spec_digest(*alg, data@) && d@.len()
            == crate::alg::spec_digest_len(*alg),
{
    let md = match alg {
        DigestAlgorithm::Sha1 => openssl::hash::MessageDigest::sha1(),
        DigestAlgorithm::Sha224 => openssl::hash::MessageDigest::sha224(),
        DigestAlgorithm::Sha256 => openssl::hash::MessageDigest::sha256(),
        DigestAlgorithm::Sha384 => openssl::hash::MessageDigest::sha384(),
        DigestAlgorithm::Sha512 => openssl::hash::MessageDigest::sha512(),
    };
    Some(openssl::hash::hash(md, data).ok()?.to_vec())
}

/// Relies on `openssl::pkey_ctx::PkeyCtx` (new, sign_init, sign_to_vec):
/// one signing operation over a precomputed digest.  The signature is a
/// DER-encoded pair whose exact length is not known a priori, and signing
/// draws randomness, so nothing is promised of the bytes.
#[verifier::external_body]
pub(crate) fn ecdsa_sign(
    key: &openssl::pkey::PKey<openssl::pkey::Private>,
    digest_bytes: &[u8],
) -> (r: Option<Vec<u8>>) {
    let mut ctx = openssl::pkey_ctx::PkeyCtx::new(key).ok()?;
    ctx.sign_init().ok()?;
    let mut sig = vec![];
    ctx.sign_to_vec(digest_bytes, &mut sig).ok()?;
    Some(sig)
}

/// Relies on `openssl::pkey_ctx::PkeyCtx` (new, verify_init, verify):
/// whether the signature is cryptographically valid for the digest; a
/// verification error counts as invalid, while `None` reports a backend
/// failure before the check.
#[verifier::external_body]
pub(crate) fn ecdsa_verify(
    key: &openssl::pkey::PKey<openssl::pkey::Public>,
    digest_bytes: &[u8],
    signature: &[u8],
) -> (r: Option<bool>) {
    let mut ctx = openssl::pkey_ctx::PkeyCtx::new(key).ok()?;
    ctx.verify_init().ok()?;
    Some(ctx.verify(digest_bytes, signature).unwrap_or(false))
}

/// Relies on `PKeyRef::private_key_to_pkcs8`: unencrypted PKCS#8 DER.
#[verifier::external_body]
pub(crate) fn private_key_to_pkcs8_der(key: &openssl::pkey::PKey<openssl::pkey::Private>) -> (r:
    Option<Vec<u8>>) {
    key.private_key_to_pkcs8().ok()
}

/// Relies on `PKeyRef::private_key_to_pem_pkcs8`: unencrypted PKCS#8 PEM.
#[verifier::external_body]
pub(crate) fn private_key_to_pem(key: &openssl::pkey::PKey<openssl::pkey::Private>) -> (r: Option<
    Vec<u8>,
>) {
    key.private_key_to_pem_pkcs8().ok()
}

/// Relies on `PKeyRef::private_key_to_pem_pkcs8_passphrase` with
/// AES-256-CBC: PKCS#8 PEM encrypted under the given password.  The
/// backend asserts that the password length fits a C int, so longer
/// passwords are excluded here rather than risked as a panic.
#[verifier::external_body]
pub(crate) fn private_key_to_pem_encrypted(
    key: &openssl::pkey::PKey<openssl::pkey::Private>,
    password: &[u8],
) -> (r: Option<Vec<u8>>)
    requires
        password@.len() <= 0x7fff_ffff,
{
    let cipher = openssl::symm::Cipher::aes_256_cbc();
    key.private_key_to_pem_pkcs8_passphrase(cipher, password).ok()
}

/// Relies on `PKeyRef::public_key_to_der`: SubjectPublicKeyInfo DER.
#[verifier::external_body]
pub(crate) fn public_key_to_der(key: &openssl::pkey::PKey<openssl::pkey::Public>) -> (r: Option<
    Vec<u8>,
>) {
    key.public_key_to_der().ok()
}

/// Relies on `PKeyRef::public_key_to_pem`: SubjectPublicKeyInfo PEM.
#[verifier::external_body]
pub(crate) fn public_key_to_pem(key: &openssl::pkey::PKey<openssl::pkey::Public>) -> (r: Option<
    Vec<u8>,
>) {
    key.public_key_to_pem().ok()
}

/// Relies on `PKeyRef::id` and `Id::as_raw`: the numeric algorithm-type
/// identifier of the key material.
#[verifier::external_body]
pub(crate) fn pkey_id_raw_priv(pkey: &openssl::pkey::PKey<openssl::pkey::Private>) -> (r: i32) {
    pkey.id().as_raw()
}

/// Relies on `PKeyRef::id` and `Id::as_raw`: the numeric algorithm-type
/// identifier of the key material.
#[verifier::external_body]
pub(crate) fn pkey_id_raw_pub(pkey: &openssl::pkey::PKey<openssl::pkey::Public>) -> (r: i32) {
    pkey.id().as_raw()
}

/// Whether a byte string parses as an unencrypted DER private key.  A
/// function of the bytes alone; only the trusted wrapper below says
/// anything about it.
pub uninterp spec fn spec_der_private_parses(data: Seq<u8>) -> bool;

/// Relies on `PKey::private_key_from_der` (d2i_AutoPrivateKey): an
/// unencrypted DER private key, in PKCS#8 or a key-type specific format;
/// whether the parse succeeds depends on the bytes alone.
#[verifier::external_body]
pub(crate) fn private_key_from_der_auto(data: &[u8]) -> (r: Option<
    openssl::pkey::PKey<openssl::pkey::Private>,
>)
    ensures
        r is Some <==> spec_der_private_parses(data@),
{
    openssl::pkey::PKey::private_key_from_der(data).ok()
}

/// Relies on `PKey::private_key_from_pkcs8_callback`: a DER PKCS#8
/// private key, decrypted through a password callback.  The callback only
/// calls the tracker's verified `invoke` and copies the bytes it yields,
/// and the backend invokes it at most once (it is `FnOnce`), so the
/// tracker moves along its verified transitions and keeps its password.
/// The backend asserts that the input length fits a C int, so longer
/// inputs are excluded here rather than risked as a panic.
#[verifier::external_body]
pub(crate) fn private_key_from_pkcs8_callback(
    data: &[u8],
    tracker: &mut crate::loader::PasswordTracker,
) -> (r: Option<openssl::pkey::PKey<openssl::pkey::Private>>)
    requires
        data@.len() <= 0x7fff_ffff,
    ensures
        final(tracker).supplied == old(tracker).supplied,
        final(tracker).password@ == old(tracker).password@,
        old(tracker).state is Unused ==> !(final(tracker).state is UsedAgain),
{
    openssl::pkey::PKey::private_key_from_pkcs8_callback(
        data,
        |buf| {
            let n = tracker.invoke(buf.len());
            buf[..n].copy_from_slice(&tracker.password[..n]);
            Ok(n)
        },
    ).ok()
}

/// What parsing PEM private-key bytes with an offered password yields:
/// whether the parse succeeds, and whether the blob is encrypted (so
/// that the password callback runs).  A function of the bytes and the
/// offer alone; only the trusted wrapper below says anything about it.
pub uninterp spec fn spec_pem_private_outcome(data: Seq<u8>, password: Seq<u8>, supplied: bool) -> (
    bool,
    bool,
);

/// Relies on `PKey::private_key_from_pem_callback`
/// (PEM_read_bio_PrivateKey): a PEM private key, decrypted through a
/// password callback that the backend invokes exactly when the blob is
/// encrypted, and at most once (it is `FnOnce`).  The callback only
/// calls the tracker's verified `invoke` and copies the bytes it
/// yields, so the tracker moves along its verified transitions and
/// keeps its password; the parse outcome is then a function of the
/// bytes and the offered password, stated here except when the password
/// did not fit the backend's buffer (the too-small case offers nothing).
/// The input length must fit a C int, as in the PKCS#8 variant.
#[verifier::external_body]
pub(crate) fn private_key_from_pem_callback(
    data: &[u8],
    tracker: &mut crate::loader::PasswordTracker,
) -> (r: Option<openssl::pkey::PKey<openssl::pkey::Private>>)
    requires
        data@.len() <= 0x7fff_ffff,
    ensures
        final(tracker).supplied == old(tracker).supplied,
        final(tracker).password@ == old(tracker).password@,
        old(tracker).state is Unused ==> !(final(tracker).state is UsedAgain),
        old(tracker).state is Unused ==> (final(tracker).state is UsedOnce
            <==> spec_pem_private_outcome(
            data@,
            old(tracker).password@,
            old(tracker).supplied,
        ).1),
        !final(tracker).too_small ==> (r is Some <==> spec_pem_private_outcome(
            data@,
            old(tracker).password@,
            old(tracker).supplied,
        ).0),
        !old(tracker).too_small ==> (final(tracker).too_small ==> (old(tracker).supplied && !(
        final(tracker).state is Unused))),
{
    openssl::pkey::PKey::private_key_from_pem_callback(
        data,
        |buf| {
            let n = tracker.invoke(buf.len());
            buf[..n].copy_from_slice(&tracker.password[..n]);
            Ok(n)
        },
    ).ok()
}

/// Whether a byte string parses as SubjectPublicKeyInfo.  A function of
/// the bytes alone; only the trusted wrapper below says anything about
/// it.
pub uninterp spec fn spec_spki_parses(data: Seq<u8>) -> bool;

/// Relies on `PKey::public_key_from_der` (SubjectPublicKeyInfo parse);
/// success depends on the bytes alone.  On failure the backend's error
/// message is returned so a caller can surface this first error after a
/// fallback parse; the message drains a thread-local error queue, so
/// nothing is promised of its text.
#[verifier::external_body]
pub(crate) fn public_key_from_der(data: &[u8]) -> (r: Result<
    openssl::pkey::PKey<openssl::pkey::Public>,
    String,
>)
    ensures
        r is Ok <==> spec_spki_parses(data@),
{
    match openssl::pkey::PKey::public_key_from_der(data) {
        Ok(k) => Ok(k),
        Err(e) => Err(format!("{}", e)),
    }
}

/// Whether a byte string parses as a raw PKCS#1 RSA public key (and the
/// result wraps into a key handle).  A function of the bytes alone; only
/// the trusted wrapper below says anything about it.
pub uninterp spec fn spec_pkcs1_public_parses(data: Seq<u8>) -> bool;

/// Relies on `openssl::rsa::Rsa::public_key_from_der_pkcs1` and
/// `PKey::from_rsa` (EVP_PKEY_set1_RSA): a raw PKCS#1 RSA public key,
/// not wrapped in SubjectPublicKeyInfo.  `from_rsa` stamps the RSA
/// algorithm type on the handle, so the identifier read back from it
/// (EVP_PKEY_id) is the RSA one.
#[verifier::external_body]
pub(crate) fn rsa_public_from_pkcs1(data: &[u8]) -> (r: Option<
    (openssl::pkey::PKey<openssl::pkey::Public>, i32),
>)
    ensures
        r is Some <==> spec_pkcs1_public_parses(data@),
        r matches Some(p) ==> p.1 == 6,
{
    let rsa = openssl::rsa::Rsa::public_key_from_der_pkcs1(data).ok()?;
    let pkey = openssl::pkey::PKey::from_rsa(rsa).ok()?;
    let id = pkey.id().as_raw();
    Some((pkey, id))
}

/// Relies on `PKeyRef::rsa` and `Rsa::private_key_to_der`: the RSA key
/// material re-encoded as PKCS#1 DER, which drops PSS parameter
/// constraints.
#[verifier::external_body]
pub(crate) fn rsa_private_to_der(pkey: &openssl::pkey::PKey<openssl::pkey::Private>) -> (r: Option<
    Vec<u8>,
>) {
    pkey.rsa().ok()?.private_key_to_der().ok()
}

/// Relies on `Rsa::private_key_from_der` and `PKey::from_rsa`: plain RSA
/// private key material decoded from PKCS#1 DER.
#[verifier::external_body]
pub(crate) fn rsa_private_from_der(data: &[u8]) -> (r: Option<
    openssl::pkey::PKey<openssl::pkey::Private>,
>) {
    let rsa = openssl::rsa::Rsa::private_key_from_der(data).ok()?;
    openssl::pkey::PKey::from_rsa(rsa).ok()
}

/// What parsing a byte string as PEM framing yields: the tag and the
/// decoded contents, or nothing.  A function of the bytes alone; only
/// the trusted wrapper below says anything about it.
pub uninterp spec fn spec_pem_record(data: Seq<u8>) -> Option<(Seq<char>, Seq<u8>)>;

/// Relies on `pem::parse`: splits PEM framing into its tag and decoded
/// contents; on failure the parser's message is returned.  The outcome
/// depends on the bytes alone.
#[verifier::external_body]
pub(crate) fn pem_parse(data: &[u8]) -> (r: Result<(String, Vec<u8>), String>)
    ensures
        (match r {
            Ok(p) => spec_pem_record(data@) matches Some(rec) && rec.0 == p.0@ && rec.1 == p.1@,
            Err(_) => spec_pem_record(data@) is None,
        }),
{
    match pem::parse(data) {
        Ok(p) => Ok((p.tag().to_owned(), p.contents().to_vec())),
        Err(e) => Err(format!("{}", e)),
    }
}

} // verus!
