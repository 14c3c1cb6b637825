//! Encoded-key loading and algorithm-family dispatch.
//!
//! The loaders parse DER or PEM bytes — with a tracked password callback
//! for private keys — and route the parsed key material to the matching
//! family constructor.  The password state machine, the error-selection
//! rules of the two-phase parse attempts, and the dispatch table are
//! verified; the codecs themselves stay behind trusted wrappers.

use vstd::prelude::*;

use crate::curves::string_eq_lit;
use crate::eckey;
use crate::eckey::EcPrivateKey;
use crate::eckey::EcPublicKey;
use crate::errors::InvalidKeyKind;
use crate::errors::KeyError;
use crate::errors::PasswordProblem;
use crate::errors::UnsupportedReason;
use crate::ossl;

verus! {

/// The algorithm families the dispatch table knows.
#[derive(Clone, Copy, PartialEq, Eq, Structural, Debug, Hash)]
pub enum KeyFamily {
    Rsa,
    RsaPss,
    Dsa,
    Dh,
    Dhx,
    Ec,
    X25519,
    X448,
    Ed25519,
    Ed448,
}

/// The family a numeric key-type identifier denotes, if any (mainline
/// OpenSSL's EVP_PKEY numbering; other libcrypto lineages number some
/// of these families differently and are not targeted here).
pub open spec fn spec_family_of(id: int) -> Option<KeyFamily> {
    if id == 6 {
        Some(KeyFamily::Rsa)
    } else if id == 912 {
        Some(KeyFamily::RsaPss)
    } else if id == 116 {
        Some(KeyFamily::Dsa)
    } else if id == 28 {
        Some(KeyFamily::Dh)
    } else if id == 920 {
        Some(KeyFamily::Dhx)
    } else if id == 408 {
        Some(KeyFamily::Ec)
    } else if id == 1034 {
        Some(KeyFamily::X25519)
    } else if id == 1035 {
        Some(KeyFamily::X448)
    } else if id == 1087 {
        Some(KeyFamily::Ed25519)
    } else if id == 1088 {
        Some(KeyFamily::Ed448)
    } else {
        None
    }
}

/// The family a numeric key-type identifier denotes, if any.
pub fn family_of_id(id: i32) -> (r: Option<KeyFamily>)
    ensures
        r == spec_family_of(id as int),
{
    if id == 6 {
        Some(KeyFamily::Rsa)
    } else if id == 912 {
        Some(KeyFamily::RsaPss)
    } else if id == 116 {
        Some(KeyFamily::Dsa)
    } else if id == 28 {
        Some(KeyFamily::Dh)
    } else if id == 920 {
        Some(KeyFamily::Dhx)
    } else if id == 408 {
        Some(KeyFamily::Ec)
    } else if id == 1034 {
        Some(KeyFamily::X25519)
    } else if id == 1035 {
        Some(KeyFamily::X448)
    } else if id == 1087 {
        Some(KeyFamily::Ed25519)
    } else if id == 1088 {
        Some(KeyFamily::Ed448)
    } else {
        None
    }
}

/// A loaded private key: the fully-validated EC form, or another
/// family's key material wrapped with its family tag (those families'
/// constructors live elsewhere).
#[derive(Debug)]
pub enum LoadedPrivateKey {
    Ec(EcPrivateKey),
    Other(KeyFamily, openssl::pkey::PKey<openssl::pkey::Private>),
}

/// A loaded public key, as the private form.
#[derive(Debug)]
pub enum LoadedPublicKey {
    Ec(EcPublicKey),
    Other(KeyFamily, openssl::pkey::PKey<openssl::pkey::Public>),
}

/// How often the password callback ran.
#[derive(Clone, Copy, PartialEq, Eq, Structural, Debug)]
pub enum CallbackUse {
    Unused,
    UsedOnce,
    UsedAgain,
}

/// The password bytes a caller's argument offers to the backend: its
/// contents, or nothing.
pub open spec fn spec_offered_password(password: Option<&[u8]>) -> Seq<u8> {
    match password {
        Some(p) => p@,
        None => Seq::empty(),
    }
}

/// The password callback's state machine: `Unused` initially, `UsedOnce`
/// after the one permitted invocation, `UsedAgain` past it.
pub struct PasswordTracker {
    pub state: CallbackUse,
    pub too_small: bool,
    pub supplied: bool,
    pub password: Vec<u8>,
}

impl PasswordTracker {
    /// A fresh tracker holding the caller's password, if any.
    pub fn new(password: Option<&[u8]>) -> (r: PasswordTracker)
        ensures
            r.state is Unused,
            !r.too_small,
            r.supplied == (password is Some),
            r.password@ == spec_offered_password(password),
    {
        match password {
            Some(p) => PasswordTracker {
                state: CallbackUse::Unused,
                too_small: false,
                supplied: true,
                password: vstd::slice::slice_to_vec(p),
            },
            None => PasswordTracker {
                state: CallbackUse::Unused,
                too_small: false,
                supplied: false,
                password: Vec::new(),
            },
        }
    }

    /// One callback invocation: advance the state machine and yield how
    /// many password bytes fit the backend's buffer.
    pub fn invoke(&mut self, capacity: usize) -> (r: usize)
        ensures
            final(self).supplied == old(self).supplied,
            final(self).password == old(self).password,
            old(self).state is Unused ==> final(self).state is UsedOnce,
            !(old(self).state is Unused) ==> final(self).state is UsedAgain,
            r <= capacity,
            r <= final(self).password@.len(),
            final(self).too_small == (old(self).too_small || (old(self).supplied && old(
                self,
            ).password@.len() > capacity)),
    {
        self.state = match self.state {
            CallbackUse::Unused => CallbackUse::UsedOnce,
            _ => CallbackUse::UsedAgain,
        };
        if !self.supplied {
            0
        } else if self.password.len() > capacity {
            self.too_small = true;
            0
        } else {
            self.password.len()
        }
    }
}

/// Decide the outcome of a private-key parse attempt from the parse
/// result and the password callback's record.  This is the whole
/// password policy: a multiply-invoked callback is ambiguous; a password
/// that did not fit is unusable; success with an unused but supplied
/// password means the key was not encrypted; failure after a callback
/// means a missing or wrong password; failure without one is a malformed
/// encoding.
pub fn settle_private_key_load(
    parse_ok: bool,
    state: CallbackUse,
    too_small: bool,
    supplied: bool,
) -> (r: Result<(), KeyError>)
    ensures
        r is Ok <==> (parse_ok && !(state is UsedAgain) && !too_small && !(state is Unused
            && supplied)),
        state is UsedAgain ==> r == Err::<(), KeyError>(
            KeyError::PasswordError(PasswordProblem::AmbiguousUse),
        ),
        !(state is UsedAgain) && too_small ==> r == Err::<(), KeyError>(
            KeyError::PasswordError(PasswordProblem::TooLong),
        ),
        (!(state is UsedAgain) && !too_small && parse_ok && state is Unused && supplied) ==> r
            == Err::<(), KeyError>(
            KeyError::PasswordError(PasswordProblem::SuppliedButKeyNotEncrypted),
        ),
        (!(state is UsedAgain) && !too_small && !parse_ok && state is UsedOnce && supplied) ==> r
            == Err::<(), KeyError>(KeyError::PasswordError(PasswordProblem::Incorrect)),
        (!(state is UsedAgain) && !too_small && !parse_ok && state is UsedOnce && !supplied) ==> r
            == Err::<(), KeyError>(KeyError::PasswordError(PasswordProblem::Required)),
        (!(state is UsedAgain) && !too_small && !parse_ok && state is Unused) ==> (r matches Err(e)
            && e matches KeyError::MalformedEncoding(m) && m@
            == "Could not deserialize key data."@),
{
    if matches!(state, CallbackUse::UsedAgain) {
        Err(KeyError::PasswordError(PasswordProblem::AmbiguousUse))
    } else if too_small {
        Err(KeyError::PasswordError(PasswordProblem::TooLong))
    } else if parse_ok {
        if matches!(state, CallbackUse::Unused) && supplied {
            Err(KeyError::PasswordError(PasswordProblem::SuppliedButKeyNotEncrypted))
        } else {
            Ok(())
        }
    } else {
        if matches!(state, CallbackUse::UsedOnce) {
            if supplied {
                Err(KeyError::PasswordError(PasswordProblem::Incorrect))
            } else {
                Err(KeyError::PasswordError(PasswordProblem::Required))
            }
        } else {
            Err(KeyError::MalformedEncoding("Could not deserialize key data.".to_owned()))
        }
    }
}

/// The errors the EC family constructor can report: one of the two
/// unsupported-curve reasons, the identity-point rejection, or a backend
/// failure.
pub open spec fn spec_ec_arm_error(e: KeyError) -> bool {
    ||| e == KeyError::UnsupportedAlgorithm(UnsupportedReason::ExplicitOrUnknownCurve)
    ||| e == KeyError::UnsupportedAlgorithm(UnsupportedReason::UnsupportedEllipticCurve)
    ||| e == KeyError::InvalidKey(InvalidKeyKind::PointAtInfinity)
    ||| e is Internal
}

/// The errors the family dispatch can report: the unsupported-key-type
/// rejection for an unrecognized identifier, or an EC-arm error.
pub open spec fn spec_dispatch_error(e: KeyError) -> bool {
    ||| e == KeyError::UnsupportedAlgorithm(UnsupportedReason::UnsupportedKeyType)
    ||| spec_ec_arm_error(e)
}

/// Route parsed private key material by its numeric type identifier.
/// The EC arm validates fully; an RSA-PSS key is normalized by
/// re-encoding through the plain-RSA path, which strips the PSS
/// constraints; other known families are wrapped with their tag; an
/// unknown identifier is an unsupported key type.
pub fn dispatch_private_key(
    pkey: &openssl::pkey::PKey<openssl::pkey::Private>,
    id_raw: i32,
) -> (r: Result<LoadedPrivateKey, KeyError>)
    ensures
        (match spec_family_of(id_raw as int) {
            None => r == Err::<LoadedPrivateKey, KeyError>(
                KeyError::UnsupportedAlgorithm(UnsupportedReason::UnsupportedKeyType),
            ),
            Some(f) => match r {
                Ok(k) => (k matches LoadedPrivateKey::Ec(_) && f is Ec) || (k
                    matches LoadedPrivateKey::Other(g, _) && !(f is Ec) && (if f is RsaPss {
                    g is Rsa
                } else {
                    g == f
                })),
                Err(e) => (f is Ec && spec_ec_arm_error(e)) || (f is RsaPss && e is Internal),
            },
        }),
{
    match family_of_id(id_raw) {
        None => Err(KeyError::UnsupportedAlgorithm(UnsupportedReason::UnsupportedKeyType)),
        Some(KeyFamily::Ec) => {
            match eckey::private_key_from_pkey(pkey) {
                Ok(k) => Ok(LoadedPrivateKey::Ec(k)),
                Err(e) => Err(e),
            }
        },
        Some(KeyFamily::RsaPss) => {
            let der = match ossl::rsa_private_to_der(pkey) {
                None => {
                    return Err(KeyError::Internal("could not re-encode RSA key".to_owned()));
                },
                Some(d) => d,
            };
            let normalized = match ossl::rsa_private_from_der(der.as_slice()) {
                None => {
                    return Err(KeyError::Internal("could not re-load RSA key".to_owned()));
                },
                Some(k) => k,
            };
            Ok(LoadedPrivateKey::Other(KeyFamily::Rsa, normalized))
        },
        Some(f) => Ok(LoadedPrivateKey::Other(f, pkey.clone())),
    }
}

/// Route parsed private key material, reading the type identifier from
/// the material itself.
pub fn private_key_from_pkey(pkey: &openssl::pkey::PKey<openssl::pkey::Private>) -> (r: Result<
    LoadedPrivateKey,
    KeyError,
>)
    ensures
        r matches Err(e) ==> spec_dispatch_error(e),
{
    let id_raw = ossl::pkey_id_raw_priv(pkey);
    dispatch_private_key(pkey, id_raw)
}

/// Route parsed public key material by its numeric type identifier.  The
/// identifier is a separate argument, so a mismatched one can be probed;
/// there is no public RSA-PSS arm, such keys are an unsupported type.
pub fn public_key_from_pkey(
    pkey: &openssl::pkey::PKey<openssl::pkey::Public>,
    id_raw: i32,
) -> (r: Result<LoadedPublicKey, KeyError>)
    ensures
        (match spec_family_of(id_raw as int) {
            None => r == Err::<LoadedPublicKey, KeyError>(
                KeyError::UnsupportedAlgorithm(UnsupportedReason::UnsupportedKeyType),
            ),
            Some(f) => {
                &&& (f is RsaPss ==> r == Err::<LoadedPublicKey, KeyError>(
                    KeyError::UnsupportedAlgorithm(UnsupportedReason::UnsupportedKeyType),
                ))
                &&& (match r {
                    Ok(k) => (k matches LoadedPublicKey::Ec(_) && f is Ec) || (k
                        matches LoadedPublicKey::Other(g, _) && g == f && !(f is Ec) && !(
                        f is RsaPss)),
                    Err(e) => f is RsaPss || (f is Ec && spec_ec_arm_error(e)),
                })
            },
        }),
{
    match family_of_id(id_raw) {
        None => Err(KeyError::UnsupportedAlgorithm(UnsupportedReason::UnsupportedKeyType)),
        Some(KeyFamily::RsaPss) => Err(
            KeyError::UnsupportedAlgorithm(UnsupportedReason::UnsupportedKeyType),
        ),
        Some(KeyFamily::Ec) => {
            match eckey::public_key_from_pkey(pkey) {
                Ok(k) => Ok(LoadedPublicKey::Ec(k)),
                Err(e) => Err(e),
            }
        },
        Some(f) => Ok(LoadedPublicKey::Other(f, pkey.clone())),
    }
}

/// Load a private key from DER bytes.  An unencrypted parse is attempted
/// first; its outcome is judged by the password policy, so a supplied
/// password on an unencrypted key is rejected, never silently ignored.
/// Otherwise the bytes are retried as password-protected PKCS#8 with a
/// tracked callback, the first attempt's failure is discarded, and the
/// policy decides from the second attempt's record alone.
pub fn load_der_private_key(data: &[u8], password: Option<&[u8]>) -> (r: Result<
    LoadedPrivateKey,
    KeyError,
>)
    requires
        data@.len() <= 0x7fff_ffff,
    ensures
        (ossl::spec_der_private_parses(data@) && password is Some) ==> r == Err::<
            LoadedPrivateKey,
            KeyError,
        >(KeyError::PasswordError(PasswordProblem::SuppliedButKeyNotEncrypted)),
        (ossl::spec_der_private_parses(data@) && password is None) ==> (r matches Ok(_) || (r
            matches Err(e) && spec_dispatch_error(e))),
        !ossl::spec_der_private_parses(data@) ==> (r matches Err(e) ==> (e is PasswordError || (e
            matches KeyError::MalformedEncoding(m) && m@ == "Could not deserialize key data."@)
            || spec_dispatch_error(e))),
{
    match ossl::private_key_from_der_auto(data) {
        Some(pkey) => {
            match settle_private_key_load(true, CallbackUse::Unused, false, password.is_some()) {
                Err(e) => Err(e),
                Ok(()) => private_key_from_pkey(&pkey),
            }
        },
        None => {
            let mut tracker = PasswordTracker::new(password);
            let parsed = ossl::private_key_from_pkcs8_callback(data, &mut tracker);
            match settle_private_key_load(
                parsed.is_some(),
                tracker.state,
                tracker.too_small,
                tracker.supplied,
            ) {
                Err(e) => Err(e),
                Ok(()) => {
                    let pkey = parsed.unwrap();
                    private_key_from_pkey(&pkey)
                },
            }
        },
    }
}

/// Load a private key from PEM bytes.  The parse always goes through the
/// password-callback path; for an unencrypted blob the callback is never
/// invoked, and the password policy decides the outcome: a password on
/// an unencrypted blob is rejected, a missing or useless password on an
/// encrypted blob is a password error, and only a blob that fails to
/// parse without any callback is a malformed encoding.
pub fn load_pem_private_key(data: &[u8], password: Option<&[u8]>) -> (r: Result<
    LoadedPrivateKey,
    KeyError,
>)
    requires
        data@.len() <= 0x7fff_ffff,
    ensures
        r matches Err(e) ==> (e is PasswordError || (e matches KeyError::MalformedEncoding(m)
            && m@ == "Could not deserialize key data."@) || spec_dispatch_error(e)),
        ({
            let outcome = ossl::spec_pem_private_outcome(
                data@,
                spec_offered_password(password),
                password is Some,
            );
            &&& ((!outcome.1 && outcome.0 && password is Some) ==> r == Err::<
                LoadedPrivateKey,
                KeyError,
            >(KeyError::PasswordError(PasswordProblem::SuppliedButKeyNotEncrypted)))
            &&& ((!outcome.1 && outcome.0 && password is None) ==> (r matches Ok(_) || (r
                matches Err(e) && spec_dispatch_error(e))))
            &&& ((!outcome.1 && !outcome.0) ==> (r matches Err(e) && e
                matches KeyError::MalformedEncoding(m) && m@
                == "Could not deserialize key data."@))
            &&& ((outcome.1 && password is None && !outcome.0) ==> r == Err::<
                LoadedPrivateKey,
                KeyError,
            >(KeyError::PasswordError(PasswordProblem::Required)))
            &&& ((outcome.1 && password is None && outcome.0) ==> (r matches Ok(_) || (r
                matches Err(e) && spec_dispatch_error(e))))
            &&& ((outcome.1 && password is Some) ==> (r matches Err(e) ==> (e is PasswordError
                || spec_dispatch_error(e))))
        }),
{
    let mut tracker = PasswordTracker::new(password);
    let parsed = ossl::private_key_from_pem_callback(data, &mut tracker);
    match settle_private_key_load(
        parsed.is_some(),
        tracker.state,
        tracker.too_small,
        tracker.supplied,
    ) {
        Err(e) => Err(e),
        Ok(()) => {
            let pkey = parsed.unwrap();
            private_key_from_pkey(&pkey)
        },
    }
}

/// Load a public key from DER bytes: first as SubjectPublicKeyInfo, then
/// as a raw PKCS#1 RSA public key.  When the fallback parses, the result
/// is the dispatched RSA key; when both parses fail, the first (generic)
/// parse's error is the one surfaced and the fallback's own failure is
/// discarded.
pub fn load_der_public_key_bytes(data: &[u8]) -> (r: Result<LoadedPublicKey, KeyError>)
    ensures
        (if ossl::spec_spki_parses(data@) {
            r matches Ok(_) || (r matches Err(e) && spec_dispatch_error(e))
        } else {
            &&& (!ossl::spec_pkcs1_public_parses(data@) ==> (r matches Err(e)
                && e is MalformedEncoding))
            &&& (ossl::spec_pkcs1_public_parses(data@) ==> (r matches Ok(k) && k
                matches LoadedPublicKey::Other(f, _) && f is Rsa))
        }),
{
    match ossl::public_key_from_der(data) {
        Ok(pkey) => {
            let id_raw = ossl::pkey_id_raw_pub(&pkey);
            public_key_from_pkey(&pkey, id_raw)
        },
        Err(original_error) => {
            match ossl::rsa_public_from_pkcs1(data) {
                None => Err(KeyError::MalformedEncoding(original_error)),
                Some(parsed) => {
                    let (pkey, id_raw) = parsed;
                    public_key_from_pkey(&pkey, id_raw)
                },
            }
        },
    }
}

/// Load a public key from DER bytes, with the two-phase parse and the
/// original-error selection of `load_der_public_key_bytes`.
pub fn load_der_public_key(data: &[u8]) -> (r: Result<LoadedPublicKey, KeyError>)
    ensures
        (if ossl::spec_spki_parses(data@) {
            r matches Ok(_) || (r matches Err(e) && spec_dispatch_error(e))
        } else {
            &&& (!ossl::spec_pkcs1_public_parses(data@) ==> (r matches Err(e)
                && e is MalformedEncoding))
            &&& (ossl::spec_pkcs1_public_parses(data@) ==> (r matches Ok(k) && k
                matches LoadedPublicKey::Other(f, _) && f is Rsa))
        }),
{
    load_der_public_key_bytes(data)
}

/// What a PEM header label selects.
#[derive(Clone, Copy, PartialEq, Eq, Structural, Debug)]
pub enum PemLabel {
    RsaPublic,
    Public,
    Other,
}

/// The dispatch on a PEM header label.
pub open spec fn spec_classify_pem_label(tag: Seq<char>) -> PemLabel {
    if tag == "RSA PUBLIC KEY"@ {
        PemLabel::RsaPublic
    } else if tag == "PUBLIC KEY"@ {
        PemLabel::Public
    } else {
        PemLabel::Other
    }
}

/// Classify a PEM header label.
pub fn classify_pem_label(tag: &String) -> (r: PemLabel)
    ensures
        r == spec_classify_pem_label(tag@),
{
    if string_eq_lit(tag, "RSA PUBLIC KEY") {
        PemLabel::RsaPublic
    } else if string_eq_lit(tag, "PUBLIC KEY") {
        PemLabel::Public
    } else {
        PemLabel::Other
    }
}

/// Load a public key from PEM bytes, dispatching on the header label:
/// "RSA PUBLIC KEY" takes the raw PKCS#1 parse, "PUBLIC KEY" the generic
/// SubjectPublicKeyInfo parse, and any other label is malformed framing.
pub fn load_pem_public_key(data: &[u8]) -> (r: Result<LoadedPublicKey, KeyError>)
    ensures
        (match ossl::spec_pem_record(data@) {
            None => r matches Err(e) && e is MalformedEncoding,
            Some(rec) => match spec_classify_pem_label(rec.0) {
                PemLabel::Other => (r matches Err(e) && e matches KeyError::MalformedEncoding(m)
                    && m@ == "malformed framing"@),
                PemLabel::RsaPublic => {
                    &&& (!ossl::spec_pkcs1_public_parses(rec.1) ==> (r matches Err(e)
                        && e is MalformedEncoding))
                    &&& (ossl::spec_pkcs1_public_parses(rec.1) ==> (r matches Ok(k) && k
                        matches LoadedPublicKey::Other(f, _) && f is Rsa))
                },
                PemLabel::Public => {
                    &&& (!ossl::spec_spki_parses(rec.1) ==> (r matches Err(e)
                        && e is MalformedEncoding))
                    &&& (ossl::spec_spki_parses(rec.1) ==> (r matches Ok(_) || (r matches Err(e)
                        && spec_dispatch_error(e))))
                },
            },
        }),
{
    let parsed = match ossl::pem_parse(data) {
        Err(m) => {
            return Err(KeyError::MalformedEncoding(m));
        },
        Ok(p) => p,
    };
    let (tag, contents) = parsed;
    match classify_pem_label(&tag) {
        PemLabel::RsaPublic => {
            match ossl::rsa_public_from_pkcs1(contents.as_slice()) {
                None => Err(
                    KeyError::MalformedEncoding("could not parse RSA public key".to_owned()),
                ),
                Some(parsed_rsa) => {
                    let (pkey, id_raw) = parsed_rsa;
                    public_key_from_pkey(&pkey, id_raw)
                },
            }
        },
        PemLabel::Public => {
            match ossl::public_key_from_der(contents.as_slice()) {
                Err(m) => Err(KeyError::MalformedEncoding(m)),
                Ok(pkey) => {
                    let id_raw = ossl::pkey_id_raw_pub(&pkey);
                    public_key_from_pkey(&pkey, id_raw)
                },
            }
        },
        PemLabel::Other => Err(KeyError::MalformedEncoding("malformed framing".to_owned())),
    }
}

} // verus!
