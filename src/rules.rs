use vstd::prelude::*;
use crate::outcome::{simple, ResultView, SimpleCheckResult, State};
use crate::text::{contains_text, join2, lower_of, lowercase, same_text, texts};

verus! {

/// The view of an optional result.
pub open spec fn opt_view(o: Option<SimpleCheckResult>) -> Option<ResultView> {
    match o {
        Some(r) => Some(r@),
        None => None,
    }
}

/// Exact comparison of an attribute: a notice naming the value when it is the
/// expected one, else a warning naming both.
pub open spec fn eq_rule(label: Seq<char>, actual: Seq<char>, expected: Seq<char>) -> ResultView {
    if actual == expected {
        simple(State::Notice, label + ": "@ + actual)
    } else {
        simple(State::Warn, label + " is "@ + actual + " but expected "@ + expected)
    }
}

/// Compares `actual` with `expected`, case-sensitively.
pub fn check_eq(label: &str, actual: &str, expected: &str) -> (r: SimpleCheckResult)
    ensures
        r@ == eq_rule(label@, actual@, expected@),
{
    if same_text(actual, expected) {
        let s = join2(label, ": ").concat(actual);
        proof { reveal_strlit(": "); }
        SimpleCheckResult::notice(s.as_str())
    } else {
        let s = join2(label, " is ").concat(actual).concat(" but expected ").concat(expected);
        proof {
            reveal_strlit(" is ");
            reveal_strlit(" but expected ");
            assert(s@ == label@ + " is "@ + actual@ + " but expected "@ + expected@);
        }
        SimpleCheckResult::warn(s.as_str())
    }
}

/// The exact-match rule, run only where a value is expected.
pub open spec fn opt_eq_rule(label: Seq<char>, actual: Seq<char>, expected: Option<String>) -> Option<ResultView> {
    match expected {
        Some(e) => Some(eq_rule(label, actual, e@)),
        None => None,
    }
}

/// Runs the exact-match rule for `label` if a value is expected.
pub fn check_attribute(label: &str, actual: &str, expected: &Option<String>) -> (r: Option<SimpleCheckResult>)
    ensures
        opt_view(r) == opt_eq_rule(label@, actual@, *expected),
{
    match expected {
        Some(e) => Some(check_eq(label, actual, e.as_str())),
        None => None,
    }
}

/// The subject common name rule: a notice naming the value, with the `CN=`
/// form in its details, when it matches, else a warning.
pub open spec fn subject_cn_rule(actual: Seq<char>, expected: Option<String>) -> Option<ResultView> {
    match expected {
        Some(e) => Some(
            if actual == e@ {
                ResultView {
                    state: State::Notice,
                    summary: "Subject CN: "@ + actual,
                    details: Some("CN="@ + actual),
                    metric: None,
                }
            } else {
                simple(State::Warn, "Subject CN is "@ + actual + " but expected "@ + e@)
            },
        ),
        None => None,
    }
}

/// Checks the subject common name if one is expected.
pub fn check_subject_cn(actual: &str, expected: &Option<String>) -> (r: Option<SimpleCheckResult>)
    ensures
        opt_view(r) == subject_cn_rule(actual@, *expected),
{
    match expected {
        Some(e) => {
            if same_text(actual, e.as_str()) {
                let summary = join2("Subject CN: ", actual);
                let details = join2("CN=", actual);
                Some(SimpleCheckResult::notice_with_details(summary.as_str(), details.as_str()))
            } else {
                let s = join2("Subject CN is ", actual).concat(" but expected ").concat(e.as_str());
                proof {
                    reveal_strlit(" but expected ");
                    reveal_strlit("Subject CN is ");
                }
                Some(SimpleCheckResult::warn(s.as_str()))
            }
        },
        None => None,
    }
}

/// The serial rule compares both sides after lowercasing them.
pub open spec fn serial_rule(serial: Seq<char>, expected: Option<String>) -> Option<ResultView> {
    match expected {
        Some(e) => Some(eq_rule("Serial"@, lower_of(serial), lower_of(e@))),
        None => None,
    }
}

/// Serials that differ only in case, compared with expectations that differ
/// only in case, give the same result.
pub proof fn lemma_serial_ignores_case(serial1: Seq<char>, serial2: Seq<char>, expected1: String, expected2: String)
    requires
        lower_of(serial1) == lower_of(serial2),
        lower_of(expected1@) == lower_of(expected2@),
    ensures
        serial_rule(serial1, Some(expected1)) == serial_rule(serial2, Some(expected2)),
{
}

/// Checks the serial number, ignoring case, if one is expected.
pub fn check_serial(serial: String, expected: Option<String>) -> (r: Option<SimpleCheckResult>)
    ensures
        opt_view(r) == serial_rule(serial@, expected),
{
    match expected {
        Some(e) => {
            let a = lowercase(serial.as_str());
            let b = lowercase(e.as_str());
            Some(check_eq("Serial", a.as_str(), b.as_str()))
        },
        None => None,
    }
}

/// The subject alternative name extension as read from a certificate.
#[derive(Clone, Debug, PartialEq, Eq)]
pub enum SanExtension {
    /// The extension could not be read; the text says why.
    Invalid(String),
    /// The certificate has no such extension.
    Absent,
    /// The DNS names that the extension lists.
    Present(Vec<String>),
}

/// The expected names that `found` lacks, each once, in the order of `expected`.
pub open spec fn missing_names(expected: Seq<Seq<char>>, found: Seq<Seq<char>>) -> Seq<Seq<char>>
    decreases expected.len(),
{
    if expected.len() == 0 {
        seq![]
    } else {
        let m = missing_names(expected.drop_last(), found);
        let x = expected.last();
        if found.contains(x) || m.contains(x) { m } else { m.push(x) }
    }
}

pub open spec fn quote(s: Seq<char>) -> Seq<char> {
    "\""@ + s + "\""@
}

/// Each name in double quotes, joined by a comma and a space.
pub open spec fn quoted_list(names: Seq<Seq<char>>) -> Seq<char>
    decreases names.len(),
{
    if names.len() == 0 {
        seq![]
    } else if names.len() == 1 {
        quote(names[0])
    } else {
        quoted_list(names.drop_last()) + ", "@ + quote(names.last())
    }
}

/// Whether every expected name is found.
pub open spec fn covers(found: Seq<Seq<char>>, expected: Seq<Seq<char>>) -> bool {
    forall|i: int| 0 <= i < expected.len() ==> found.contains(#[trigger] expected[i])
}

/// The subject alternative name rule: the found DNS names must include every
/// expected one.
pub open spec fn san_rule(san: SanExtension, expected: Option<Vec<String>>) -> Option<ResultView> {
    match expected {
        None => None,
        Some(e) => Some(
            match san {
                SanExtension::Invalid(err) => simple(State::Crit, "Subject alt names: "@ + err@),
                SanExtension::Absent => if e@.len() == 0 {
                    simple(State::Notice, "No subject alt names"@)
                } else {
                    simple(State::Warn, "No subject alt names"@)
                },
                SanExtension::Present(found) => if covers(texts(found@), texts(e@)) {
                    simple(State::Notice, "Subject alt names present"@)
                } else {
                    simple(
                        State::Warn,
                        "Subject alt names: missing "@ + quoted_list(missing_names(texts(e@), texts(found@))),
                    )
                },
            },
        ),
    }
}

proof fn lemma_missing_empty_iff_covered(expected: Seq<Seq<char>>, found: Seq<Seq<char>>)
    ensures
        (missing_names(expected, found).len() == 0) == covers(found, expected),
    decreases expected.len(),
{
    if expected.len() > 0 {
        let d = expected.drop_last();
        lemma_missing_empty_iff_covered(d, found);
        lemma_missing_within(d, found);
        let m = missing_names(d, found);
        if covers(found, expected) {
            assert forall|i: int| 0 <= i < d.len() implies found.contains(#[trigger] d[i]) by {
                assert(d[i] == expected[i]);
            }
        } else {
            let i = choose|i: int| 0 <= i < expected.len() && !found.contains(#[trigger] expected[i]);
            if i < d.len() {
                assert(d[i] == expected[i]);
            }
        }
        if m.len() == 0 && covers(found, d) {
            if !found.contains(expected.last()) {
                assert(!m.contains(expected.last()));
            } else {
                assert forall|i: int| 0 <= i < expected.len() implies found.contains(#[trigger] expected[i]) by {
                    if i < d.len() {
                        assert(d[i] == expected[i]);
                    }
                }
            }
        }
    }
}

proof fn lemma_missing_within(expected: Seq<Seq<char>>, found: Seq<Seq<char>>)
    ensures
        forall|x: Seq<char>| missing_names(expected, found).contains(x) ==> !found.contains(x),
    decreases expected.len(),
{
    if expected.len() > 0 {
        lemma_missing_within(expected.drop_last(), found);
    }
}

/// Renders `names` as a quoted, comma-separated list.
fn quote_all(names: &Vec<String>) -> (r: String)
    ensures
        r@ == quoted_list(texts(names@)),
{
    let mut out = String::new();
    let mut i: usize = 0;
    proof {
        reveal_strlit("\"");
        reveal_strlit(", ");
    }
    while i < names.len()
        invariant
            i <= names@.len(),
            out@ == quoted_list(texts(names@).take(i as int)),
        decreases names@.len() - i,
    {
        let ghost before = texts(names@).take(i as int);
        assert(texts(names@).take(i + 1).drop_last() =~= before);
        if i > 0 {
            out.append(", ");
        } else {
            assert(texts(names@).take(1) =~= seq![names@[0]@]);
        }
        out.append("\"");
        out.append(names[i].as_str());
        out.append("\"");
        i = i + 1;
    }
    assert(texts(names@).take(i as int) =~= texts(names@));
    out
}

/// The expected names that `found` lacks, each once, in expected order. Both
/// lists are walked as vectors so that the names come out in a fixed order.
fn missing(expected: &Vec<String>, found: &Vec<String>) -> (r: Vec<String>)
    ensures
        texts(r@) == missing_names(texts(expected@), texts(found@)),
{
    let mut out: Vec<String> = Vec::new();
    let mut i: usize = 0;
    while i < expected.len()
        invariant
            i <= expected@.len(),
            texts(out@) == missing_names(texts(expected@).take(i as int), texts(found@)),
        decreases expected@.len() - i,
    {
        assert(texts(expected@).take(i + 1).drop_last() =~= texts(expected@).take(i as int));
        assert(texts(expected@).take(i + 1).last() == expected@[i as int]@);
        let x = expected[i].as_str();
        if !contains_text(found, x) && !contains_text(&out, x) {
            out.push(expected[i].clone());
            assert(texts(out@) =~= texts(out@).drop_last().push(x@));
        }
        i = i + 1;
    }
    assert(texts(expected@).take(i as int) =~= texts(expected@));
    out
}

/// Checks that every expected DNS name is among those that the certificate lists.
pub fn check_subject_alt_names(alt_names: &SanExtension, expected: Option<Vec<String>>) -> (r: Option<SimpleCheckResult>)
    ensures
        opt_view(r) == san_rule(*alt_names, expected),
{
    match expected {
        None => None,
        Some(e) => match alt_names {
            SanExtension::Invalid(err) => {
                let s = join2("Subject alt names: ", err.as_str());
                Some(SimpleCheckResult::crit(s.as_str()))
            },
            SanExtension::Absent => {
                if e.len() == 0 {
                    Some(SimpleCheckResult::notice("No subject alt names"))
                } else {
                    Some(SimpleCheckResult::warn("No subject alt names"))
                }
            },
            SanExtension::Present(found) => {
                let m = missing(&e, found);
                proof {
                    lemma_missing_empty_iff_covered(texts(e@), texts(found@));
                }
                if m.len() == 0 {
                    Some(SimpleCheckResult::notice("Subject alt names present"))
                } else {
                    let s = join2("Subject alt names: missing ", quote_all(&m).as_str());
                    Some(SimpleCheckResult::warn(s.as_str()))
                }
            },
        },
    }
}

} // verus!
