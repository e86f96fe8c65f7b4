use vstd::prelude::*;
use crate::algorithms::{KeyAlgorithm, SignatureAlgorithm};
use x509_parser::certificate::X509Certificate;
use x509_parser::extensions::GeneralName;
use x509_parser::objects::{oid2sn, oid_registry};
use x509_parser::oid_registry::Oid;
use x509_parser::prelude::FromDer;
use x509_parser::public_key::PublicKey;
use x509_parser::signature_algorithm::SignatureAlgorithm as X509SignatureAlgorithm;

verus! {

/// Whether the bytes decode as an X.509 certificate.
pub uninterp spec fn decodes(der: Seq<u8>) -> bool;

/// The common names of the subject (`issuer` false) or of the issuer, in
/// order; `None` for one whose value is not text.
pub uninterp spec fn common_names_of(der: Seq<u8>, issuer: bool) -> Seq<Option<Seq<char>>>;

/// The organizations of the subject or of the issuer, as for common names.
pub uninterp spec fn organizations_of(der: Seq<u8>, issuer: bool) -> Seq<Option<Seq<char>>>;

/// The organizational units of the subject or of the issuer.
pub uninterp spec fn organizational_units_of(der: Seq<u8>, issuer: bool) -> Seq<Option<Seq<char>>>;

/// The states or provinces of the issuer.
pub uninterp spec fn issuer_states_of(der: Seq<u8>) -> Seq<Option<Seq<char>>>;

/// The countries of the issuer.
pub uninterp spec fn issuer_countries_of(der: Seq<u8>) -> Seq<Option<Seq<char>>>;

/// The serial number as colon-separated hex bytes.
pub uninterp spec fn serial_of(der: Seq<u8>) -> Seq<char>;

/// The start of the validity window, in seconds since the epoch.
pub uninterp spec fn not_before_of(der: Seq<u8>) -> i64;

/// The end of the validity window, in seconds since the epoch.
pub uninterp spec fn not_after_of(der: Seq<u8>) -> i64;

/// The end of the validity window as display text.
pub uninterp spec fn not_after_text_of(der: Seq<u8>) -> Seq<char>;

/// The general names of the subject alternative name extension: `Err` with the
/// error's text where it is invalid, `Ok(None)` where it is absent, else each
/// name, as its text where it is a DNS name and `None` otherwise.
pub uninterp spec fn alt_names_of(der: Seq<u8>) -> Result<Option<Seq<Option<Seq<char>>>>, Seq<char>>;

/// The signature algorithm as a variant tag and a hash name, `None` where it is
/// not recognised.
pub uninterp spec fn signature_of(der: Seq<u8>) -> Option<(nat, Seq<char>)>;

/// The public key's family and measure, `None` where it does not decode.
pub uninterp spec fn public_key_of(der: Seq<u8>) -> Option<(KeyAlgorithm, usize)>;

pub open spec fn opt_texts(v: Seq<Option<String>>) -> Seq<Option<Seq<char>>> {
    v.map_values(|o: Option<String>| match o {
        Some(s) => Some(s@),
        None => None,
    })
}

pub open spec fn alt_names_view(r: Result<Option<Vec<Option<String>>>, String>) -> Result<Option<Seq<Option<Seq<char>>>>, Seq<char>> {
    match r {
        Err(e) => Err(e@),
        Ok(None) => Ok(None),
        Ok(Some(v)) => Ok(Some(opt_texts(v@))),
    }
}

/// A signature algorithm as a variant tag and its hash name (empty where it has none).
pub open spec fn signature_view(a: SignatureAlgorithm) -> (nat, Seq<char>) {
    match a {
        SignatureAlgorithm::RSA => (0, seq![]),
        SignatureAlgorithm::RSASSA_PSS(h) => (1, h@),
        SignatureAlgorithm::RSAAES_OAEP(h) => (2, h@),
        SignatureAlgorithm::DSA => (3, seq![]),
        SignatureAlgorithm::ECDSA => (4, seq![]),
        SignatureAlgorithm::ED25519 => (5, seq![]),
    }
}

pub open spec fn opt_signature_view(o: Option<SignatureAlgorithm>) -> Option<(nat, Seq<char>)> {
    match o {
        Some(a) => Some(signature_view(a)),
        None => None,
    }
}

/// Relies on `X509Certificate::from_der`: whether the bytes decode.
#[verifier::external_body]
pub(crate) fn is_certificate(der: &[u8]) -> (r: bool)
    ensures
        r == decodes(der@),
{
    X509Certificate::from_der(der).is_ok()
}

/// Relies on `X509Name::iter_common_name` and `AttributeTypeAndValue::as_str`:
/// the common names of the subject and of the issuer, each as text where it is text.
#[verifier::external_body]
pub(crate) fn common_names(der: &[u8]) -> (r: (Vec<Option<String>>, Vec<Option<String>>))
    ensures
        opt_texts(r.0@) == common_names_of(der@, false),
        opt_texts(r.1@) == common_names_of(der@, true),
{
    match X509Certificate::from_der(der) {
        Ok((_, c)) => (
            c.subject().iter_common_name().map(|a| a.as_str().ok().map(str::to_string)).collect(),
            c.issuer().iter_common_name().map(|a| a.as_str().ok().map(str::to_string)).collect(),
        ),
        Err(_) => (Vec::new(), Vec::new()),
    }
}

/// Relies on `X509Name::iter_organization` and `AttributeTypeAndValue::as_str`:
/// the organizations of the subject and of the issuer, each as text where it is text.
#[verifier::external_body]
pub(crate) fn organizations(der: &[u8]) -> (r: (Vec<Option<String>>, Vec<Option<String>>))
    ensures
        opt_texts(r.0@) == organizations_of(der@, false),
        opt_texts(r.1@) == organizations_of(der@, true),
{
    match X509Certificate::from_der(der) {
        Ok((_, c)) => (
            c.subject().iter_organization().map(|a| a.as_str().ok().map(str::to_string)).collect(),
            c.issuer().iter_organization().map(|a| a.as_str().ok().map(str::to_string)).collect(),
        ),
        Err(_) => (Vec::new(), Vec::new()),
    }
}

/// Relies on `X509Name::iter_organizational_unit` and `AttributeTypeAndValue::as_str`:
/// the organizational units of the subject and of the issuer, each as text where it is text.
#[verifier::external_body]
pub(crate) fn organizational_units(der: &[u8]) -> (r: (Vec<Option<String>>, Vec<Option<String>>))
    ensures
        opt_texts(r.0@) == organizational_units_of(der@, false),
        opt_texts(r.1@) == organizational_units_of(der@, true),
{
    match X509Certificate::from_der(der) {
        Ok((_, c)) => (
            c.subject().iter_organizational_unit().map(|a| a.as_str().ok().map(str::to_string)).collect(),
            c.issuer().iter_organizational_unit().map(|a| a.as_str().ok().map(str::to_string)).collect(),
        ),
        Err(_) => (Vec::new(), Vec::new()),
    }
}

/// Relies on `X509Name::iter_state_or_province` and `AttributeTypeAndValue::as_str`:
/// the states or provinces of the issuer, each as text where it is text.
#[verifier::external_body]
pub(crate) fn issuer_states(der: &[u8]) -> (r: Vec<Option<String>>)
    ensures
        opt_texts(r@) == issuer_states_of(der@),
{
    match X509Certificate::from_der(der) {
        Ok((_, c)) => c.issuer().iter_state_or_province().map(|a| a.as_str().ok().map(str::to_string)).collect(),
        Err(_) => Vec::new(),
    }
}

/// Relies on `X509Name::iter_country` and `AttributeTypeAndValue::as_str`:
/// the countries of the issuer, each as text where it is text.
#[verifier::external_body]
pub(crate) fn issuer_countries(der: &[u8]) -> (r: Vec<Option<String>>)
    ensures
        opt_texts(r@) == issuer_countries_of(der@),
{
    match X509Certificate::from_der(der) {
        Ok((_, c)) => c.issuer().iter_country().map(|a| a.as_str().ok().map(str::to_string)).collect(),
        Err(_) => Vec::new(),
    }
}

/// Relies on `X509Certificate::raw_serial_as_string`: the serial as hex text.
#[verifier::external_body]
pub(crate) fn serial(der: &[u8]) -> (r: String)
    ensures
        r@ == serial_of(der@),
{
    match X509Certificate::from_der(der) {
        Ok((_, c)) => c.raw_serial_as_string(),
        Err(_) => String::new(),
    }
}

/// Relies on `ASN1Time::timestamp` for both ends of `X509Certificate::validity`.
#[verifier::external_body]
pub(crate) fn validity_window(der: &[u8]) -> (r: (i64, i64))
    ensures
        r.0 == not_before_of(der@),
        r.1 == not_after_of(der@),
{
    match X509Certificate::from_der(der) {
        Ok((_, c)) => (c.validity().not_before.timestamp(), c.validity().not_after.timestamp()),
        Err(_) => (0, 0),
    }
}

/// Relies on `ASN1Time`'s `Display`: the end of the validity window as text.
#[verifier::external_body]
pub(crate) fn not_after_text(der: &[u8]) -> (r: String)
    ensures
        r@ == not_after_text_of(der@),
{
    match X509Certificate::from_der(der) {
        Ok((_, c)) => format!("{}", c.validity().not_after),
        Err(_) => String::new(),
    }
}

/// Relies on `Validity::time_to_expiration`, which compares with the current
/// time: the whole seconds until expiry, `None` outside the validity window.
#[verifier::external_body]
pub(crate) fn time_to_expiration(der: &[u8]) -> (r: Option<u64>)
{
    match X509Certificate::from_der(der) {
        Ok((_, c)) => c.validity().time_to_expiration().map(|d| d.whole_seconds() as u64),
        Err(_) => None,
    }
}

/// Relies on `X509Certificate::subject_alternative_name`: `Err` with the error's
/// text where the extension is invalid, `Ok(None)` where it is absent, else each
/// general name, as its text where it is a DNS name and `None` otherwise.
#[verifier::external_body]
pub(crate) fn alt_names(der: &[u8]) -> (r: Result<Option<Vec<Option<String>>>, String>)
    ensures
        alt_names_view(r) == alt_names_of(der@),
{
    match X509Certificate::from_der(der) {
        Err(_) => Ok(None),
        Ok((_, c)) => match c.subject_alternative_name() {
            Err(e) => Err(format!("{}", e)),
            Ok(None) => Ok(None),
            Ok(Some(ext)) => Ok(Some(ext.value.general_names.iter().map(|n| match n {
                GeneralName::DNSName(v) => Some(v.to_string()),
                _ => None,
            }).collect())),
        },
    }
}

/// Relies on `SignatureAlgorithm::try_from` on the certificate's signature
/// algorithm and on `oid2sn`: `None` where the algorithm is not recognised; a
/// hash is named by its short name, or by its dotted OID where it has none.
#[verifier::external_body]
pub(crate) fn signature_algorithm(der: &[u8]) -> (r: Option<SignatureAlgorithm>)
    ensures
        opt_signature_view(r) == signature_of(der@),
{
    let (_, c) = X509Certificate::from_der(der).ok()?;
    let hash = |o: &Oid| oid2sn(o, oid_registry()).map_or(format!("{}", o), str::to_string);
    match X509SignatureAlgorithm::try_from(&c.signature_algorithm).ok()? {
        X509SignatureAlgorithm::RSA => Some(SignatureAlgorithm::RSA),
        X509SignatureAlgorithm::RSASSA_PSS(p) => Some(SignatureAlgorithm::RSASSA_PSS(hash(p.hash_algorithm_oid()))),
        X509SignatureAlgorithm::RSAAES_OAEP(p) => Some(SignatureAlgorithm::RSAAES_OAEP(hash(p.hash_algorithm_oid()))),
        X509SignatureAlgorithm::DSA => Some(SignatureAlgorithm::DSA),
        X509SignatureAlgorithm::ECDSA => Some(SignatureAlgorithm::ECDSA),
        X509SignatureAlgorithm::ED25519 => Some(SignatureAlgorithm::ED25519),
    }
}

/// Relies on `SubjectPublicKeyInfo::parsed`: `None` where the key does not
/// decode, else its family with `key_size` for RSA and EC keys and the byte
/// length of the encoding for the others.
#[verifier::external_body]
pub(crate) fn public_key(der: &[u8]) -> (r: Option<(KeyAlgorithm, usize)>)
    ensures
        r == public_key_of(der@),
{
    let (_, c) = X509Certificate::from_der(der).ok()?;
    match c.public_key().parsed().ok()? {
        PublicKey::RSA(k) => Some((KeyAlgorithm::RSA, k.key_size())),
        PublicKey::EC(k) => Some((KeyAlgorithm::EC, k.key_size())),
        PublicKey::DSA(k) => Some((KeyAlgorithm::DSA, k.len())),
        PublicKey::GostR3410(k) => Some((KeyAlgorithm::GostR3410, k.len())),
        PublicKey::GostR3410_2012(k) => Some((KeyAlgorithm::GostR3410_2012, k.len())),
        PublicKey::Unknown(k) => Some((KeyAlgorithm::Unknown, k.len())),
    }
}

} // verus!
