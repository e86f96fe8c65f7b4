use check_cert::algorithms::SignatureAlgorithm;
use check_cert::certificate::{check, Config};
use check_cert::levels::LevelsChecker;
use check_cert::outcome::{CheckResult, SimpleCheckResult, State};

const DAY: u64 = 86400;

/// A self-signed EC P-256 certificate: subject and issuer
/// `C=DE, ST=Bavaria, O=Acme, OU=IT, CN=example.com`, serial 0a:0b:0c, valid from
/// 2020-01-01 to 2020-01-11, alternative names DNS example.com, IP 10.0.0.1 and
/// DNS www.example.com, signed with ECDSA and SHA-256.
const CERT: [u8; 455] = [
    0x30, 0x82, 0x01, 0xc3, 0x30, 0x82, 0x01, 0x6a, 0xa0, 0x03, 0x02, 0x01, 0x02, 0x02, 0x03, 0x0a,
    0x0b, 0x0c, 0x30, 0x0a, 0x06, 0x08, 0x2a, 0x86, 0x48, 0xce, 0x3d, 0x04, 0x03, 0x02, 0x30, 0x51,
    0x31, 0x0b, 0x30, 0x09, 0x06, 0x03, 0x55, 0x04, 0x06, 0x13, 0x02, 0x44, 0x45, 0x31, 0x10, 0x30,
    0x0e, 0x06, 0x03, 0x55, 0x04, 0x08, 0x0c, 0x07, 0x42, 0x61, 0x76, 0x61, 0x72, 0x69, 0x61, 0x31,
    0x0d, 0x30, 0x0b, 0x06, 0x03, 0x55, 0x04, 0x0a, 0x0c, 0x04, 0x41, 0x63, 0x6d, 0x65, 0x31, 0x0b,
    0x30, 0x09, 0x06, 0x03, 0x55, 0x04, 0x0b, 0x0c, 0x02, 0x49, 0x54, 0x31, 0x14, 0x30, 0x12, 0x06,
    0x03, 0x55, 0x04, 0x03, 0x0c, 0x0b, 0x65, 0x78, 0x61, 0x6d, 0x70, 0x6c, 0x65, 0x2e, 0x63, 0x6f,
    0x6d, 0x30, 0x1e, 0x17, 0x0d, 0x32, 0x30, 0x30, 0x31, 0x30, 0x31, 0x30, 0x30, 0x30, 0x30, 0x30,
    0x30, 0x5a, 0x17, 0x0d, 0x32, 0x30, 0x30, 0x31, 0x31, 0x31, 0x30, 0x30, 0x30, 0x30, 0x30, 0x30,
    0x5a, 0x30, 0x51, 0x31, 0x0b, 0x30, 0x09, 0x06, 0x03, 0x55, 0x04, 0x06, 0x13, 0x02, 0x44, 0x45,
    0x31, 0x10, 0x30, 0x0e, 0x06, 0x03, 0x55, 0x04, 0x08, 0x0c, 0x07, 0x42, 0x61, 0x76, 0x61, 0x72,
    0x69, 0x61, 0x31, 0x0d, 0x30, 0x0b, 0x06, 0x03, 0x55, 0x04, 0x0a, 0x0c, 0x04, 0x41, 0x63, 0x6d,
    0x65, 0x31, 0x0b, 0x30, 0x09, 0x06, 0x03, 0x55, 0x04, 0x0b, 0x0c, 0x02, 0x49, 0x54, 0x31, 0x14,
    0x30, 0x12, 0x06, 0x03, 0x55, 0x04, 0x03, 0x0c, 0x0b, 0x65, 0x78, 0x61, 0x6d, 0x70, 0x6c, 0x65,
    0x2e, 0x63, 0x6f, 0x6d, 0x30, 0x59, 0x30, 0x13, 0x06, 0x07, 0x2a, 0x86, 0x48, 0xce, 0x3d, 0x02,
    0x01, 0x06, 0x08, 0x2a, 0x86, 0x48, 0xce, 0x3d, 0x03, 0x01, 0x07, 0x03, 0x42, 0x00, 0x04, 0xfb,
    0x50, 0x38, 0x8f, 0x29, 0x49, 0x8d, 0x0a, 0x93, 0xad, 0x25, 0xec, 0x4c, 0x34, 0x03, 0x7b, 0x9d,
    0x3c, 0xc3, 0xcc, 0xa4, 0x78, 0x7e, 0xb6, 0xfe, 0xda, 0xbe, 0x2b, 0x30, 0x03, 0xea, 0xc8, 0x9f,
    0x77, 0x65, 0xca, 0x9d, 0x62, 0x88, 0xe6, 0xff, 0x73, 0x4f, 0x5c, 0xd0, 0x8f, 0x3a, 0x59, 0x21,
    0xcf, 0x54, 0xb2, 0x1b, 0xb3, 0x98, 0xb5, 0x0a, 0xc0, 0xd2, 0x57, 0x7f, 0xa0, 0x74, 0x72, 0xa3,
    0x31, 0x30, 0x2f, 0x30, 0x2d, 0x06, 0x03, 0x55, 0x1d, 0x11, 0x04, 0x26, 0x30, 0x24, 0x82, 0x0b,
    0x65, 0x78, 0x61, 0x6d, 0x70, 0x6c, 0x65, 0x2e, 0x63, 0x6f, 0x6d, 0x87, 0x04, 0x0a, 0x00, 0x00,
    0x01, 0x82, 0x0f, 0x77, 0x77, 0x77, 0x2e, 0x65, 0x78, 0x61, 0x6d, 0x70, 0x6c, 0x65, 0x2e, 0x63,
    0x6f, 0x6d, 0x30, 0x0a, 0x06, 0x08, 0x2a, 0x86, 0x48, 0xce, 0x3d, 0x04, 0x03, 0x02, 0x03, 0x47,
    0x00, 0x30, 0x44, 0x02, 0x20, 0x5b, 0x48, 0xc0, 0xc0, 0xd0, 0xa2, 0xc3, 0xde, 0x71, 0x5a, 0x8d,
    0x78, 0x3a, 0x71, 0xc2, 0xc2, 0xf2, 0x65, 0x65, 0x0c, 0x05, 0xca, 0x16, 0x7c, 0x1f, 0xbb, 0xc0,
    0x53, 0xaf, 0xf6, 0xe9, 0xb2, 0x02, 0x20, 0x49, 0xa3, 0xc8, 0xe3, 0x23, 0x1d, 0x16, 0x5f, 0x91,
    0x8d, 0x94, 0x75, 0x02, 0x2d, 0x23, 0x4c, 0x31, 0xcf, 0x8f, 0x7b, 0x0d, 0xfe, 0x30, 0x59, 0x53,
    0x93, 0xe8, 0x15, 0xe6, 0xc0, 0x22, 0xed,
];

fn s(v: &str) -> String {
    v.to_string()
}

fn summaries(config: Config) -> Vec<(State, String)> {
    check(&CERT, config)
        .results
        .into_iter()
        .map(|c| (c.result.state, c.result.summary))
        .collect()
}

#[test]
fn decoded_names_match() {
    let mut config = Config::new();
    config.subject_cn = Some(s("example.com"));
    config.subject_o = Some(s("Acme"));
    config.subject_ou = Some(s("IT"));
    config.issuer_cn = Some(s("example.com"));
    config.issuer_o = Some(s("Acme"));
    config.issuer_ou = Some(s("IT"));
    config.issuer_st = Some(s("Bavaria"));
    config.issuer_c = Some(s("DE"));
    assert_eq!(
        summaries(config),
        vec![
            (State::Notice, s("Subject CN: example.com")),
            (State::Notice, s("Subject O: Acme")),
            (State::Notice, s("Subject OU: IT")),
            (State::Notice, s("Issuer CN: example.com")),
            (State::Notice, s("Issuer O: Acme")),
            (State::Notice, s("Issuer OU: IT")),
            (State::Notice, s("Issuer ST: Bavaria")),
            (State::Notice, s("Issuer C: DE")),
        ]
    );
}

#[test]
fn decoded_serial_and_names_mismatch() {
    let mut config = Config::new();
    config.serial = Some(s("0A:0B:0C"));
    config.issuer_c = Some(s("US"));
    assert_eq!(
        summaries(config),
        vec![
            (State::Notice, s("Serial: 0a:0b:0c")),
            (State::Warn, s("Issuer C is DE but expected US")),
        ]
    );
}

#[test]
fn decoded_alt_names_ignore_ip_entries() {
    let mut config = Config::new();
    config.subject_alt_names = Some(vec![s("www.example.com"), s("example.com")]);
    assert_eq!(summaries(config), vec![(State::Notice, s("Subject alt names present"))]);
    let mut config = Config::new();
    config.subject_alt_names = Some(vec![s("10.0.0.1"), s("example.com")]);
    assert_eq!(summaries(config), vec![(State::Warn, s("Subject alt names: missing \"10.0.0.1\""))]);
}

#[test]
fn decoded_algorithms_and_key() {
    let mut config = Config::new();
    config.signature_algorithm = Some(SignatureAlgorithm::ECDSA);
    config.pubkey_algorithm = Some(s("EC"));
    config.pubkey_size = Some(256);
    assert_eq!(
        summaries(config),
        vec![
            (State::Notice, s("Signature algorithm: ECDSA")),
            (State::Notice, s("Public key algorithm: EC")),
            (State::Notice, s("Public key size: 256")),
        ]
    );
}

#[test]
fn decoded_certificate_is_expired() {
    let mut config = Config::new();
    config.not_after = Some(LevelsChecker::new(0, 0));
    config.max_validity = Some(5 * DAY);
    let r = check(&CERT, config);
    assert_eq!(
        r.results,
        vec![
            CheckResult::from_simple(SimpleCheckResult::crit(
                "Certificate expired (Jan 11 00:00:00 2020 +00:00)"
            )),
            CheckResult::from_simple(SimpleCheckResult::warn(
                "Max validity is 10 days but expected at most 5"
            )),
        ]
    );
    assert_eq!(r.state(), State::Crit);
}

#[test]
fn truncated_certificate_is_one_critical_result() {
    let mut config = Config::new();
    config.subject_cn = Some(s("example.com"));
    config.pubkey_size = Some(256);
    let r = check(&CERT[..200], config);
    assert_eq!(
        r.results,
        vec![CheckResult::from_simple(SimpleCheckResult::crit("Failed to parse certificate"))]
    );
}
