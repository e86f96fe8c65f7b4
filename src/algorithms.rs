use vstd::prelude::*;
use crate::outcome::{simple, ResultView, SimpleCheckResult, State};
use crate::rules::{check_eq, eq_rule, opt_view};
use crate::text::{decimal, dec, join2, upper_of, uppercase};

verus! {

/// A signature algorithm, with the hash algorithm's name where it is parameterised.
#[allow(non_camel_case_types)]
#[derive(Clone, Debug, PartialEq, Eq)]
pub enum SignatureAlgorithm {
    RSA,
    RSASSA_PSS(String),
    RSAAES_OAEP(String),
    DSA,
    ECDSA,
    ED25519,
}

/// The display name of a signature algorithm; a hash name is shown upper-cased.
pub open spec fn signature_name(a: SignatureAlgorithm) -> Seq<char> {
    match a {
        SignatureAlgorithm::RSA => "RSA"@,
        SignatureAlgorithm::RSASSA_PSS(h) => "RSASSA_PSS-"@ + upper_of(h@),
        SignatureAlgorithm::RSAAES_OAEP(h) => "RSAAES_OAEP-"@ + upper_of(h@),
        SignatureAlgorithm::DSA => "DSA"@,
        SignatureAlgorithm::ECDSA => "ECDSA"@,
        SignatureAlgorithm::ED25519 => "ED25519"@,
    }
}

impl SignatureAlgorithm {
    /// The display name, such as `RSASSA_PSS-SHA256`.
    pub fn to_string(&self) -> (r: String)
        ensures
            r@ == signature_name(*self),
    {
        match self {
            SignatureAlgorithm::RSA => String::from_str("RSA"),
            SignatureAlgorithm::RSASSA_PSS(h) => join2("RSASSA_PSS-", uppercase(h.as_str()).as_str()),
            SignatureAlgorithm::RSAAES_OAEP(h) => join2("RSAAES_OAEP-", uppercase(h.as_str()).as_str()),
            SignatureAlgorithm::DSA => String::from_str("DSA"),
            SignatureAlgorithm::ECDSA => String::from_str("ECDSA"),
            SignatureAlgorithm::ED25519 => String::from_str("ED25519"),
        }
    }
}

/// The signature algorithm rule; `None` for `actual` means it could not be classified.
pub open spec fn signature_rule(actual: Option<SignatureAlgorithm>, expected: Option<SignatureAlgorithm>) -> Option<ResultView> {
    match expected {
        None => None,
        Some(e) => Some(
            match actual {
                None => simple(State::Warn, "Signature algorithm: Parser failed"@),
                Some(a) => eq_rule("Signature algorithm"@, signature_name(a), signature_name(e)),
            },
        ),
    }
}

/// Checks the signature algorithm if one is expected.
pub fn check_signature_algorithm(actual: &Option<SignatureAlgorithm>, expected: Option<SignatureAlgorithm>) -> (r: Option<SimpleCheckResult>)
    ensures
        opt_view(r) == signature_rule(*actual, expected),
{
    match expected {
        None => None,
        Some(e) => match actual {
            None => Some(SimpleCheckResult::warn("Signature algorithm: Parser failed")),
            Some(a) => {
                let x = a.to_string();
                let y = e.to_string();
                Some(check_eq("Signature algorithm", x.as_str(), y.as_str()))
            },
        },
    }
}

/// The family of a public key.
#[allow(non_camel_case_types)]
#[derive(Clone, Copy, Debug, PartialEq, Eq, Structural)]
pub enum KeyAlgorithm {
    RSA,
    EC,
    DSA,
    GostR3410,
    GostR3410_2012,
    Unknown,
}

pub open spec fn key_algorithm_name(k: KeyAlgorithm) -> Seq<char> {
    match k {
        KeyAlgorithm::RSA => "RSA"@,
        KeyAlgorithm::EC => "EC"@,
        KeyAlgorithm::DSA => "DSA"@,
        KeyAlgorithm::GostR3410 => "GostR3410"@,
        KeyAlgorithm::GostR3410_2012 => "GostR3410_2012"@,
        KeyAlgorithm::Unknown => "Unknown"@,
    }
}

impl KeyAlgorithm {
    pub fn name(&self) -> (r: &'static str)
        ensures
            r@ == key_algorithm_name(*self),
    {
        match self {
            KeyAlgorithm::RSA => "RSA",
            KeyAlgorithm::EC => "EC",
            KeyAlgorithm::DSA => "DSA",
            KeyAlgorithm::GostR3410 => "GostR3410",
            KeyAlgorithm::GostR3410_2012 => "GostR3410_2012",
            KeyAlgorithm::Unknown => "Unknown",
        }
    }

    /// Whether the key's size comes from the algorithm's own accessor rather
    /// than from the length of its encoding.
    pub open spec fn has_size_accessor(self) -> bool {
        self is RSA || self is EC
    }
}

/// A decoded public key: its family and its size in bits.
#[derive(Clone, Copy, Debug, PartialEq, Eq, Structural)]
pub struct PublicKeyInfo {
    pub algorithm: KeyAlgorithm,
    pub bits: u128,
}

/// Bit size of a key: the accessor's value for RSA and EC keys, eight bits per
/// byte of the encoding for the others.
pub open spec fn key_bits(algorithm: KeyAlgorithm, measure: usize) -> nat {
    if algorithm.has_size_accessor() { measure as nat } else { 8 * measure as nat }
}

impl PublicKeyInfo {
    /// `measure` is the size accessor's value for RSA and EC keys, and the byte
    /// length of the encoding for the others.
    pub fn new(algorithm: KeyAlgorithm, measure: usize) -> (r: PublicKeyInfo)
        ensures
            r.algorithm == algorithm,
            r.bits == key_bits(algorithm, measure),
    {
        let m = measure as u128;
        let bits = match algorithm {
            KeyAlgorithm::RSA | KeyAlgorithm::EC => m,
            _ => 8 * m,
        };
        PublicKeyInfo { algorithm, bits }
    }
}

/// The public key algorithm rule; `None` for `actual` means the key could not be decoded.
pub open spec fn pubkey_algorithm_rule(actual: Option<PublicKeyInfo>, expected: Option<String>) -> Option<ResultView> {
    match expected {
        None => None,
        Some(e) => Some(
            match actual {
                None => simple(State::Warn, "Invalid public key"@),
                Some(k) => eq_rule("Public key algorithm"@, key_algorithm_name(k.algorithm), e@),
            },
        ),
    }
}

/// Checks the public key's family if one is expected.
pub fn check_pubkey_algorithm(actual: &Option<PublicKeyInfo>, expected: Option<String>) -> (r: Option<SimpleCheckResult>)
    ensures
        opt_view(r) == pubkey_algorithm_rule(*actual, expected),
{
    match expected {
        None => None,
        Some(e) => match actual {
            None => Some(SimpleCheckResult::warn("Invalid public key")),
            Some(k) => Some(check_eq("Public key algorithm", k.algorithm.name(), e.as_str())),
        },
    }
}

/// The public key size rule; `None` for `actual` means the key could not be decoded.
pub open spec fn pubkey_size_rule(actual: Option<PublicKeyInfo>, expected: Option<usize>) -> Option<ResultView> {
    match expected {
        None => None,
        Some(e) => Some(
            match actual {
                None => simple(State::Warn, "Invalid public key"@),
                Some(k) => eq_rule("Public key size"@, dec(k.bits as nat), dec(e as nat)),
            },
        ),
    }
}

/// Checks the public key's size in bits if one is expected.
pub fn check_pubkey_size(actual: &Option<PublicKeyInfo>, expected: Option<usize>) -> (r: Option<SimpleCheckResult>)
    ensures
        opt_view(r) == pubkey_size_rule(*actual, expected),
{
    match expected {
        None => None,
        Some(e) => match actual {
            None => Some(SimpleCheckResult::warn("Invalid public key")),
            Some(k) => {
                let x = decimal(k.bits);
                let y = decimal(e as u128);
                Some(check_eq("Public key size", x.as_str(), y.as_str()))
            },
        },
    }
}

} // verus!
