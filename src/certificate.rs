use vstd::prelude::*;
use crate::algorithms::{
    check_pubkey_algorithm, check_pubkey_size, check_signature_algorithm, pubkey_algorithm_rule,
    key_bits, pubkey_size_rule, signature_rule, PublicKeyInfo, SignatureAlgorithm,
};
use crate::levels::LevelsChecker;
use crate::outcome::{simple, CheckResult, Collection, ResultView, SimpleCheckResult, State};
use crate::rules::{
    check_attribute, check_serial, check_subject_alt_names, check_subject_cn, opt_eq_rule,
    opt_view, san_rule, serial_rule, subject_cn_rule, SanExtension,
};
use crate::validity::{
    check_max_validity, check_validity_not_after, expiration_rule, max_validity_rule,
    opt_metric_view,
};
use crate::text::texts;
use crate::x509;

verus! {

/// The expected values; an absent one means that attribute is not checked.
/// Durations are in seconds.
#[derive(Clone, Debug)]
pub struct Config {
    pub pubkey_algorithm: Option<String>,
    pub pubkey_size: Option<usize>,
    pub serial: Option<String>,
    pub signature_algorithm: Option<SignatureAlgorithm>,
    pub subject_cn: Option<String>,
    pub subject_alt_names: Option<Vec<String>>,
    pub subject_o: Option<String>,
    pub subject_ou: Option<String>,
    pub issuer_cn: Option<String>,
    pub issuer_o: Option<String>,
    pub issuer_ou: Option<String>,
    pub issuer_st: Option<String>,
    pub issuer_c: Option<String>,
    pub not_after: Option<LevelsChecker>,
    pub max_validity: Option<u64>,
}

impl Config {
    /// A configuration that expects nothing, so that no rule runs.
    pub fn new() -> (r: Config)
        ensures
            forall|i: int| 0 <= i < RULE_COUNT ==> !expects(r, i),
    {
        Config {
            pubkey_algorithm: None,
            pubkey_size: None,
            serial: None,
            signature_algorithm: None,
            subject_cn: None,
            subject_alt_names: None,
            subject_o: None,
            subject_ou: None,
            issuer_cn: None,
            issuer_o: None,
            issuer_ou: None,
            issuer_st: None,
            issuer_c: None,
            not_after: None,
            max_validity: None,
        }
    }
}

/// What the rules read from a decoded certificate. A missing name attribute is
/// the empty string; `signature` and `public_key` are `None` where they could
/// not be classified or decoded; `time_to_expiration` is `None` outside the validity
/// window (expired, or not yet valid);
/// `not_before` and `not_after` are seconds since the epoch.
#[derive(Clone, Debug)]
pub struct CertFacts {
    pub subject_cn: String,
    pub subject_o: String,
    pub subject_ou: String,
    pub serial: String,
    pub issuer_cn: String,
    pub issuer_o: String,
    pub issuer_ou: String,
    pub issuer_st: String,
    pub issuer_c: String,
    pub alt_names: SanExtension,
    pub signature: Option<SignatureAlgorithm>,
    pub public_key: Option<PublicKeyInfo>,
    pub time_to_expiration: Option<u64>,
    pub not_after_text: String,
    pub not_before: i64,
    pub not_after: i64,
}

/// Number of rules, one per attribute that can be expected.
pub const RULE_COUNT: usize = 15;

/// The outcome of every rule, in report order; `None` where the rule did not run.
pub open spec fn rule_outcomes(f: CertFacts, c: Config) -> Seq<Option<ResultView>> {
    seq![
        subject_cn_rule(f.subject_cn@, c.subject_cn),
        san_rule(f.alt_names, c.subject_alt_names),
        opt_eq_rule("Subject O"@, f.subject_o@, c.subject_o),
        opt_eq_rule("Subject OU"@, f.subject_ou@, c.subject_ou),
        serial_rule(f.serial@, c.serial),
        opt_eq_rule("Issuer CN"@, f.issuer_cn@, c.issuer_cn),
        opt_eq_rule("Issuer O"@, f.issuer_o@, c.issuer_o),
        opt_eq_rule("Issuer OU"@, f.issuer_ou@, c.issuer_ou),
        opt_eq_rule("Issuer ST"@, f.issuer_st@, c.issuer_st),
        opt_eq_rule("Issuer C"@, f.issuer_c@, c.issuer_c),
        signature_rule(f.signature, c.signature_algorithm),
        pubkey_algorithm_rule(f.public_key, c.pubkey_algorithm),
        pubkey_size_rule(f.public_key, c.pubkey_size),
        expiration_rule(f.time_to_expiration, c.not_after, f.not_after_text@),
        max_validity_rule(f.not_before, f.not_after, c.max_validity),
    ]
}

/// Whether the configuration expects a value for the rule at `i` in report order.
pub open spec fn expects(c: Config, i: int) -> bool {
    if i == 0 { c.subject_cn is Some }
    else if i == 1 { c.subject_alt_names is Some }
    else if i == 2 { c.subject_o is Some }
    else if i == 3 { c.subject_ou is Some }
    else if i == 4 { c.serial is Some }
    else if i == 5 { c.issuer_cn is Some }
    else if i == 6 { c.issuer_o is Some }
    else if i == 7 { c.issuer_ou is Some }
    else if i == 8 { c.issuer_st is Some }
    else if i == 9 { c.issuer_c is Some }
    else if i == 10 { c.signature_algorithm is Some }
    else if i == 11 { c.pubkey_algorithm is Some }
    else if i == 12 { c.pubkey_size is Some }
    else if i == 13 { c.not_after is Some }
    else { c.max_validity is Some }
}

/// The present outcomes, in order.
pub open spec fn present(s: Seq<Option<ResultView>>) -> Seq<ResultView>
    decreases s.len(),
{
    if s.len() == 0 {
        seq![]
    } else {
        match s.last() {
            Some(r) => present(s.drop_last()).push(r),
            None => present(s.drop_last()),
        }
    }
}

/// The report for a certificate that decodes.
pub open spec fn report(f: CertFacts, c: Config) -> Seq<ResultView> {
    present(rule_outcomes(f, c))
}

/// The report for bytes that do not decode: one critical result alone.
pub open spec fn parse_failure() -> Seq<ResultView> {
    seq![simple(State::Crit, "Failed to parse certificate"@)]
}

/// The facts that a certificate's bytes determine by name.
pub open spec fn read_from(f: CertFacts, der: Seq<u8>) -> bool {
    &&& f.subject_cn@ == first_text(x509::common_names_of(der, false))
    &&& f.issuer_cn@ == first_text(x509::common_names_of(der, true))
    &&& f.subject_o@ == first_text(x509::organizations_of(der, false))
    &&& f.issuer_o@ == first_text(x509::organizations_of(der, true))
    &&& f.subject_ou@ == first_text(x509::organizational_units_of(der, false))
    &&& f.issuer_ou@ == first_text(x509::organizational_units_of(der, true))
    &&& f.issuer_st@ == first_text(x509::issuer_states_of(der))
    &&& f.issuer_c@ == first_text(x509::issuer_countries_of(der))
    &&& f.serial@ == x509::serial_of(der)
    &&& f.not_before == x509::not_before_of(der)
    &&& f.not_after == x509::not_after_of(der)
    &&& f.not_after_text@ == x509::not_after_text_of(der)
    &&& x509::opt_signature_view(f.signature) == x509::signature_of(der)
    &&& f.public_key == match x509::public_key_of(der) {
        Some((a, m)) => Some(PublicKeyInfo { algorithm: a, bits: key_bits(a, m) as u128 }),
        None => None,
    }
    &&& alt_names_from(f.alt_names, x509::alt_names_of(der))
}

/// The first of a name's attribute values where it is text; empty where the
/// name has no such attribute or the first one is not text.
pub open spec fn first_text(v: Seq<Option<Seq<char>>>) -> Seq<char> {
    if v.len() > 0 && v[0] is Some {
        v[0]->Some_0
    } else {
        seq![]
    }
}

/// The first attribute value as text, or the empty string.
pub fn first_or_empty(v: &Vec<Option<String>>) -> (r: String)
    ensures
        r@ == first_text(x509::opt_texts(v@)),
{
    if v.len() > 0 {
        match &v[0] {
            Some(s) => s.clone(),
            None => String::new(),
        }
    } else {
        String::new()
    }
}

/// How the extension's general names determine what the rule sees.
pub open spec fn alt_names_from(
    san: SanExtension,
    names: Result<Option<Seq<Option<Seq<char>>>>, Seq<char>>,
) -> bool {
    match names {
        Err(e) => san matches SanExtension::Invalid(t) && t@ == e,
        Ok(None) => san is Absent,
        Ok(Some(v)) => san matches SanExtension::Present(found) && texts(found@) == dns_texts(v),
    }
}

/// The DNS names among general names given as texts, in order.
pub open spec fn dns_texts(names: Seq<Option<Seq<char>>>) -> Seq<Seq<char>>
    decreases names.len(),
{
    if names.len() == 0 {
        seq![]
    } else {
        match names.last() {
            Some(n) => dns_texts(names.drop_last()).push(n),
            None => dns_texts(names.drop_last()),
        }
    }
}

fn lift(o: Option<SimpleCheckResult>) -> (r: Option<CheckResult>)
    ensures
        opt_metric_view(r) == opt_view(o),
{
    match o {
        Some(s) => Some(CheckResult::from_simple(s)),
        None => None,
    }
}

/// Keeps the present results, in order.
fn keep_present(outcomes: Vec<Option<CheckResult>>) -> (r: Collection)
    ensures
        r@ == present(outcomes@.map_values(|o: Option<CheckResult>| opt_metric_view(o))),
{
    let ghost all = outcomes@.map_values(|o: Option<CheckResult>| opt_metric_view(o));
    let mut results: Vec<CheckResult> = Vec::new();
    let mut i: usize = 0;
    while i < outcomes.len()
        invariant
            i <= outcomes@.len(),
            all == outcomes@.map_values(|o: Option<CheckResult>| opt_metric_view(o)),
            results@.map_values(|r: CheckResult| r@) == present(all.take(i as int)),
        decreases outcomes@.len() - i,
    {
        assert(all.take(i + 1).drop_last() =~= all.take(i as int));
        match &outcomes[i] {
            Some(r) => {
                results.push(r.clone_result());
                assert(results@.map_values(|r: CheckResult| r@) =~= present(all.take(i as int)).push(r@));
            },
            None => {},
        }
        i = i + 1;
    }
    assert(all.take(i as int) =~= all);
    Collection { results }
}

/// Runs every rule whose value is expected on the facts, in report order.
pub fn evaluate(facts: &CertFacts, config: Config) -> (r: Collection)
    ensures
        r@ == report(*facts, config),
{
    let mut outcomes: Vec<Option<CheckResult>> = Vec::new();
    outcomes.push(lift(check_subject_cn(facts.subject_cn.as_str(), &config.subject_cn)));
    outcomes.push(lift(check_subject_alt_names(&facts.alt_names, config.subject_alt_names)));
    outcomes.push(lift(check_attribute("Subject O", facts.subject_o.as_str(), &config.subject_o)));
    outcomes.push(lift(check_attribute("Subject OU", facts.subject_ou.as_str(), &config.subject_ou)));
    outcomes.push(lift(check_serial(facts.serial.clone(), config.serial)));
    outcomes.push(lift(check_attribute("Issuer CN", facts.issuer_cn.as_str(), &config.issuer_cn)));
    outcomes.push(lift(check_attribute("Issuer O", facts.issuer_o.as_str(), &config.issuer_o)));
    outcomes.push(lift(check_attribute("Issuer OU", facts.issuer_ou.as_str(), &config.issuer_ou)));
    outcomes.push(lift(check_attribute("Issuer ST", facts.issuer_st.as_str(), &config.issuer_st)));
    outcomes.push(lift(check_attribute("Issuer C", facts.issuer_c.as_str(), &config.issuer_c)));
    outcomes.push(lift(check_signature_algorithm(&facts.signature, config.signature_algorithm)));
    outcomes.push(lift(check_pubkey_algorithm(&facts.public_key, config.pubkey_algorithm)));
    outcomes.push(lift(check_pubkey_size(&facts.public_key, config.pubkey_size)));
    outcomes.push(
        check_validity_not_after(facts.time_to_expiration, config.not_after, facts.not_after_text.as_str()),
    );
    outcomes.push(lift(check_max_validity(facts.not_before, facts.not_after, config.max_validity)));
    proof {
        reveal_strlit("Subject O");
        reveal_strlit("Subject OU");
        reveal_strlit("Issuer CN");
        reveal_strlit("Issuer O");
        reveal_strlit("Issuer OU");
        reveal_strlit("Issuer ST");
        reveal_strlit("Issuer C");
        assert(outcomes@.map_values(|o: Option<CheckResult>| opt_metric_view(o)) =~= rule_outcomes(*facts, config));
    }
    keep_present(outcomes)
}

fn dns_names(names: &Vec<Option<String>>) -> (r: Vec<String>)
    ensures
        texts(r@) == dns_texts(x509::opt_texts(names@)),
{
    let mut out: Vec<String> = Vec::new();
    let mut i: usize = 0;
    while i < names.len()
        invariant
            i <= names@.len(),
            texts(out@) == dns_texts(x509::opt_texts(names@.take(i as int))),
        decreases names@.len() - i,
    {
        assert(x509::opt_texts(names@.take(i + 1)).drop_last() =~= x509::opt_texts(names@.take(i as int)));
        match &names[i] {
            Some(n) => {
                out.push(n.clone());
                assert(texts(out@) =~= dns_texts(x509::opt_texts(names@.take(i as int))).push(n@));
            },
            None => {},
        }
        i = i + 1;
    }
    assert(names@.take(i as int) =~= names@);
    out
}

/// Reads what the rules need from the bytes of a certificate.
fn read_certificate(der: &[u8]) -> (r: CertFacts)
    ensures
        read_from(r, der@),
{
    let (subject_cns, issuer_cns) = x509::common_names(der);
    let (subject_os, issuer_os) = x509::organizations(der);
    let (subject_ous, issuer_ous) = x509::organizational_units(der);
    let (not_before, not_after) = x509::validity_window(der);
    let alt_names = match x509::alt_names(der) {
        Err(e) => SanExtension::Invalid(e),
        Ok(None) => SanExtension::Absent,
        Ok(Some(v)) => SanExtension::Present(dns_names(&v)),
    };
    let public_key = match x509::public_key(der) {
        Some((algorithm, measure)) => Some(PublicKeyInfo::new(algorithm, measure)),
        None => None,
    };
    CertFacts {
        subject_cn: first_or_empty(&subject_cns),
        subject_o: first_or_empty(&subject_os),
        subject_ou: first_or_empty(&subject_ous),
        serial: x509::serial(der),
        issuer_cn: first_or_empty(&issuer_cns),
        issuer_o: first_or_empty(&issuer_os),
        issuer_ou: first_or_empty(&issuer_ous),
        issuer_st: first_or_empty(&x509::issuer_states(der)),
        issuer_c: first_or_empty(&x509::issuer_countries(der)),
        alt_names,
        signature: x509::signature_algorithm(der),
        public_key,
        time_to_expiration: x509::time_to_expiration(der),
        not_after_text: x509::not_after_text(der),
        not_before,
        not_after,
    }
}

/// Checks DER-encoded certificate bytes against the expected values. Bytes
/// that do not decode give one critical result and nothing else; otherwise
/// the report is that of the rules on what the certificate holds.
pub fn check(der: &[u8], config: Config) -> (r: Collection)
    ensures
        !x509::decodes(der@) ==> r@ == parse_failure(),
        x509::decodes(der@) ==> exists|f: CertFacts| #[trigger] read_from(f, der@) && r@ == report(f, config),
{
    if !x509::is_certificate(der) {
        return Collection::abort("Failed to parse certificate");
    }
    let facts = read_certificate(der);
    evaluate(&facts, config)
}

/// A rule yields an outcome exactly when its value is expected, and the report
/// holds those outcomes alone, in order.
pub proof fn lemma_result_iff_expected(f: CertFacts, c: Config, i: int)
    requires
        0 <= i < RULE_COUNT,
    ensures
        rule_outcomes(f, c).len() == RULE_COUNT,
        (rule_outcomes(f, c)[i] is Some) == expects(c, i),
        report(f, c) == present(rule_outcomes(f, c)),
{
}

/// Number of rules among the first `n`, in report order, whose value is expected.
pub open spec fn expected_count(c: Config, n: int) -> nat
    decreases n,
{
    if n <= 0 {
        0
    } else {
        expected_count(c, n - 1) + if expects(c, n - 1) { 1nat } else { 0nat }
    }
}

/// Number of present outcomes.
pub open spec fn some_count(s: Seq<Option<ResultView>>) -> nat
    decreases s.len(),
{
    if s.len() == 0 {
        0
    } else {
        some_count(s.drop_last()) + if s.last() is Some { 1nat } else { 0nat }
    }
}

proof fn lemma_present_len(s: Seq<Option<ResultView>>)
    ensures
        present(s).len() == some_count(s),
    decreases s.len(),
{
    if s.len() > 0 {
        lemma_present_len(s.drop_last());
    }
}

proof fn lemma_count_prefix(f: CertFacts, c: Config, n: int)
    requires
        0 <= n <= RULE_COUNT,
    ensures
        some_count(rule_outcomes(f, c).take(n)) == expected_count(c, n),
    decreases n,
{
    if n > 0 {
        lemma_count_prefix(f, c, n - 1);
        let s = rule_outcomes(f, c);
        assert(s.take(n).drop_last() =~= s.take(n - 1));
        lemma_result_iff_expected(f, c, n - 1);
    }
}

/// The report on a decoded certificate holds one result per rule whose value
/// is expected, and no more.
pub proof fn lemma_report_size(f: CertFacts, c: Config)
    ensures
        report(f, c).len() == expected_count(c, RULE_COUNT as int),
{
    let s = rule_outcomes(f, c);
    lemma_count_prefix(f, c, RULE_COUNT as int);
    assert(s.take(RULE_COUNT as int) =~= s);
    lemma_present_len(s);
}

} // verus!
