use vstd::prelude::*;
use crate::text::{dec, decimal, join2, same_text};

verus! {

/// How an agent authenticates to the database server.
pub enum Credentials<'a> {
    SqlServer { user: &'a str, password: &'a str },
    Windows { user: &'a str, password: &'a str },
}

/// An output section: its name and the column separator of its rows, if any.
#[derive(Clone, Debug, PartialEq, Eq)]
pub struct Section {
    pub name: String,
    pub separator: Option<char>,
}

/// The column separator of each known section; `None` for the others.
pub open spec fn separator_of(name: Seq<char>) -> Option<char> {
    if name == "instance"@ || name == "databases"@ || name == "counters"@
        || name == "blocked_sessions"@ || name == "transactionlogs"@ || name == "datafiles"@
        || name == "cluster"@ || name == "clusters"@ || name == "backup"@ {
        Some('|')
    } else if name == "jobs"@ || name == "mirroring"@ || name == "availability_groups"@ {
        Some('\t')
    } else {
        None
    }
}

/// The column separator of the section called `name`.
pub fn get_section_separator(name: &str) -> (r: Option<char>)
    ensures
        r == separator_of(name@),
{
    let pipe = same_text(name, "instance") || same_text(name, "databases")
        || same_text(name, "counters") || same_text(name, "blocked_sessions")
        || same_text(name, "transactionlogs") || same_text(name, "datafiles")
        || same_text(name, "cluster") || same_text(name, "clusters")
        || same_text(name, "backup");
    let tab = same_text(name, "jobs") || same_text(name, "mirroring")
        || same_text(name, "availability_groups");
    if pipe {
        Some('|')
    } else if tab {
        Some('\t')
    } else {
        None
    }
}

/// The section called `name`, with its separator.
pub fn to_section(name: &String) -> (r: Section)
    ensures
        r.name@ == name@,
        r.separator == separator_of(name@),
{
    Section { name: name.clone(), separator: get_section_separator(name.as_str()) }
}

/// The header line that opens a section: `<<<name>>>`, or
/// `<<<name:sep(N)>>>` with N the separator's code, then a newline.
pub open spec fn header_text(name: Seq<char>, separator: Option<char>) -> Seq<char> {
    match separator {
        Some(c) => "<<<"@ + name + ":sep("@ + dec((c as u32) as nat) + ")>>>\n"@,
        None => "<<<"@ + name + ">>>\n"@,
    }
}

/// The header line of a section.
pub fn header(name: &str, separator: Option<char>) -> (r: String)
    ensures
        r@ == header_text(name@, separator),
{
    match separator {
        Some(c) => join2("<<<", name)
            .concat(":sep(")
            .concat(decimal(c as u32 as u128).as_str())
            .concat(")>>>\n"),
        None => join2("<<<", name).concat(">>>\n"),
    }
}

/// The headers of the named sections, one after another.
pub open spec fn headers(names: Seq<String>) -> Seq<char>
    decreases names.len(),
{
    if names.len() == 0 {
        seq![]
    } else {
        headers(names.drop_last()) + header_text(names.last()@, separator_of(names.last()@))
    }
}

fn append_headers(out: &mut String, names: &Vec<String>)
    ensures
        final(out)@ == old(out)@ + headers(names@),
{
    let ghost start = out@;
    let mut i: usize = 0;
    while i < names.len()
        invariant
            i <= names@.len(),
            out@ == start + headers(names@.take(i as int)),
        decreases names@.len() - i,
    {
        assert(names@.take(i + 1).drop_last() =~= names@.take(i as int));
        let s = to_section(&names[i]);
        let h = header(s.name.as_str(), s.separator);
        out.append(h.as_str());
        i = i + 1;
    }
    assert(names@.take(i as int) =~= names@);
}

/// Headers without data for every section: those always sent, then the cached ones.
pub fn generate_dumb_header(always: &Vec<String>, cached: &Vec<String>) -> (r: String)
    ensures
        r@ == headers(always@) + headers(cached@),
{
    let mut out = String::new();
    append_headers(&mut out, always);
    append_headers(&mut out, cached);
    out
}

/// A database engine instance as the server lists it.
#[derive(Clone, Debug, PartialEq, Eq)]
pub struct InstanceEngine {
    pub name: String,
    pub id: String,
    pub version: String,
    pub edition: String,
    pub cluster: Option<String>,
    pub port: Option<u16>,
    pub available: Option<bool>,
}

/// Whether every character is an ASCII digit.
pub open spec fn all_digits(d: Seq<char>) -> bool {
    forall|i: int| 0 <= i < d.len() ==> '0' <= #[trigger] d[i] <= '9'
}

/// The number that decimal digits spell.
pub open spec fn digits_value(d: Seq<char>) -> nat
    decreases d.len(),
{
    if d.len() == 0 {
        0
    } else {
        digits_value(d.drop_last()) * 10 + ((d.last() as u32) - ('0' as u32)) as nat
    }
}

/// The digits of a port number: the text without a leading `+`.
pub open spec fn port_digits(s: Seq<char>) -> Seq<char> {
    if s.len() > 0 && s[0] == '+' { s.drop_first() } else { s }
}

/// A port number as `u16` parsing reads it: an optional `+`, then one or more
/// ASCII digits whose value is at most 65535; `None` for any other text.
pub open spec fn port_of(s: Seq<char>) -> Option<u16> {
    let d = port_digits(s);
    if d.len() > 0 && all_digits(d) && digits_value(d) <= 65535 {
        Some(digits_value(d) as u16)
    } else {
        None
    }
}

/// Reads a port number.
pub fn parse_port(s: &str) -> (r: Option<u16>)
    ensures
        r == port_of(s@),
{
    let n = s.unicode_len();
    let start: usize = if n > 0 && s.get_char(0) == '+' { 1 } else { 0 };
    let ghost d = port_digits(s@);
    assert(d =~= s@.subrange(start as int, n as int));
    if start >= n {
        return None;
    }
    let mut value: u32 = 0;
    let mut over = false;
    let mut i: usize = start;
    while i < n
        invariant
            start <= i <= n,
            n == s@.len(),
            d == s@.subrange(start as int, n as int),
            d == port_digits(s@),
            all_digits(d.take(i - start)),
            !over ==> value as nat == digits_value(d.take(i - start)) && value <= 65535,
            over ==> digits_value(d.take(i - start)) > 65535,
        decreases n - i,
    {
        let c = s.get_char(i);
        let ghost k = (i - start) as int;
        assert(d.take(k + 1).drop_last() =~= d.take(k));
        assert(d.take(k + 1).last() == c);
        if c < '0' || c > '9' {
            assert(d[k] == c);
            assert(!all_digits(d));
            return None;
        }
        assert(all_digits(d.take(k + 1)));
        let digit = (c as u32) - ('0' as u32);
        proof {
            let prev = digits_value(d.take(k));
            assert(digits_value(d.take(k + 1)) == prev * 10 + digit as nat);
            assert(prev * 10 + digit as nat >= prev) by (nonlinear_arith);
        }
        if !over {
            let next = value * 10 + digit;
            if next > 65535 {
                over = true;
            } else {
                value = next;
            }
        }
        i = i + 1;
    }
    assert(d.take(i - start) =~= d);
    if over {
        None
    } else {
        Some(value as u16)
    }
}

/// The text in column `i` of a row, `None` where it is null or missing.
pub open spec fn column(row: Seq<Option<String>>, i: int) -> Option<Seq<char>> {
    if 0 <= i < row.len() {
        match row[i] {
            Some(s) => Some(s@),
            None => None,
        }
    } else {
        None
    }
}

/// The text in column `i`, empty where it is null or missing.
pub open spec fn column_text(row: Seq<Option<String>>, i: int) -> Seq<char> {
    match column(row, i) {
        Some(s) => s,
        None => seq![],
    }
}

fn get_column(row: &Vec<Option<String>>, i: usize) -> (r: Option<String>)
    ensures
        match r {
            Some(s) => column(row@, i as int) == Some(s@),
            None => column(row@, i as int) is None,
        },
{
    if i < row.len() {
        match &row[i] {
            Some(s) => Some(s.clone()),
            None => None,
        }
    } else {
        None
    }
}

fn get_column_text(row: &Vec<Option<String>>, i: usize) -> (r: String)
    ensures
        r@ == column_text(row@, i as int),
{
    match get_column(row, i) {
        Some(s) => s,
        None => String::new(),
    }
}

impl InstanceEngine {
    /// Builds an engine from a row of text columns: name, id, edition, version,
    /// cluster and port. Bad or missing data gives empty text or `None`.
    pub fn from_columns(row: &Vec<Option<String>>) -> (r: InstanceEngine)
        ensures
            r.name@ == column_text(row@, 0),
            r.id@ == column_text(row@, 1),
            r.edition@ == column_text(row@, 2),
            r.version@ == column_text(row@, 3),
            match r.cluster {
                Some(c) => column(row@, 4) == Some(c@),
                None => column(row@, 4) is None,
            },
            r.port == match column(row@, 5) {
                Some(p) => port_of(p),
                None => None,
            },
            r.available is None,
    {
        let port = match get_column(row, 5) {
            Some(p) => parse_port(p.as_str()),
            None => None,
        };
        InstanceEngine {
            name: get_column_text(row, 0),
            id: get_column_text(row, 1),
            version: get_column_text(row, 3),
            edition: get_column_text(row, 2),
            cluster: get_column(row, 4),
            port,
            available: None,
        }
    }
}

} // verus!
