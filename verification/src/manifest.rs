//! Reading the package version out of a Cargo manifest, as the SDK's build
//! tooling does when it stamps generated code samples.
use crate::text::{chars_of, find_char, first_index_of, sub_vec, trim, trim_bounds};
use vstd::prelude::*;

verus! {

/// Index of the first occurrence of `pat` in `s`.
pub open spec fn first_occurrence(s: Seq<char>, pat: Seq<char>) -> Option<int>
    decreases s.len(),
{
    if s.len() < pat.len() {
        None
    } else if s.subrange(0, pat.len() as int) == pat {
        Some(0)
    } else if s.len() == 0 {
        None
    } else {
        match first_occurrence(s.drop_first(), pat) {
            Some(i) => Some(i + 1),
            None => None,
        }
    }
}

pub open spec fn package_header() -> Seq<char> {
    seq!['[', 'p', 'a', 'c', 'k', 'a', 'g', 'e', ']']
}

pub open spec fn section_start() -> Seq<char> {
    seq!['\n', '[']
}

pub open spec fn version_key() -> Seq<char> {
    seq!['v', 'e', 'r', 's', 'i', 'o', 'n', ' ', '=', ' ']
}

/// The text after the first `[package]` header, or the whole manifest when
/// there is none.
pub open spec fn after_package_header(manifest: Seq<char>) -> Seq<char> {
    match first_occurrence(manifest, package_header()) {
        Some(i) => manifest.subrange(i + 9, manifest.len() as int),
        None => manifest,
    }
}

/// The text searched for the version line: what follows `[package]` up to the
/// next line that opens a table (`\n[`), or the whole manifest when no table
/// follows.
pub open spec fn package_section(manifest: Seq<char>) -> Seq<char> {
    let rest = after_package_header(manifest);
    match first_occurrence(rest, section_start()) {
        Some(j) => rest.subrange(0, j),
        None => manifest,
    }
}

/// `s` without its leading double quotes.
pub open spec fn strip_quotes_start(s: Seq<char>) -> Seq<char>
    decreases s.len(),
{
    if s.len() > 0 && s[0] == '"' {
        strip_quotes_start(s.drop_first())
    } else {
        s
    }
}

/// `s` without its trailing double quotes.
pub open spec fn strip_quotes_end(s: Seq<char>) -> Seq<char>
    decreases s.len(),
{
    if s.len() > 0 && s.last() == '"' {
        strip_quotes_end(s.drop_last())
    } else {
        s
    }
}

/// `s` without leading and trailing double quotes (`trim_matches('"')`).
pub open spec fn strip_quotes(s: Seq<char>) -> Seq<char> {
    strip_quotes_end(strip_quotes_start(s))
}

/// The version that a line declares: the line, trimmed, must start with
/// `version = `; the rest, stripped of double quotes, is the version.
pub open spec fn line_version(line: Seq<char>) -> Option<Seq<char>> {
    let t = trim(line);
    if t.len() >= 10 && t.subrange(0, 10) == version_key() {
        Some(strip_quotes(t.subrange(10, t.len() as int)))
    } else {
        None
    }
}

/// The version declared by the first line of `s` that declares one.
#[verifier::opaque]
pub open spec fn first_line_version(s: Seq<char>) -> Option<Seq<char>>
    decreases s.len(),
{
    match first_index_of(s, '\n') {
        None => line_version(s),
        Some(k) => match line_version(s.subrange(0, k)) {
            Some(v) => Some(v),
            None => if 0 <= k < s.len() {
                first_line_version(s.subrange(k + 1, s.len() as int))
            } else {
                None
            },
        },
    }
}

/// The package version of a manifest: the first version line of the
/// package section, unless its version is empty.
pub open spec fn sdk_version_spec(manifest: Seq<char>) -> Option<Seq<char>> {
    match first_line_version(package_section(manifest)) {
        Some(v) => if v.len() > 0 { Some(v) } else { None },
        None => None,
    }
}

proof fn lemma_first_line_step(cur: Seq<char>)
    ensures
        match first_index_of(cur, '\n') {
            None => first_line_version(cur) == line_version(cur),
            Some(k) => 0 <= k < cur.len() && match line_version(cur.subrange(0, k)) {
                Some(v) => first_line_version(cur) == Some(v),
                None => first_line_version(cur) == first_line_version(cur.subrange(k + 1, cur.len() as int)),
            },
        },
{
    reveal(first_line_version);
    lemma_first_index_in_bounds(cur, '\n');
}

proof fn lemma_first_index_in_bounds(s: Seq<char>, c: char)
    ensures
        first_index_of(s, c) matches Some(i) ==> 0 <= i < s.len() && s[i] == c,
    decreases s.len(),
{
    if s.len() > 0 {
        lemma_first_index_in_bounds(s.drop_first(), c);
    }
}

proof fn lemma_occurrence_found(s: Seq<char>, pat: Seq<char>, i: int)
    requires
        0 <= i,
        i + pat.len() <= s.len(),
        s.subrange(i, i + pat.len()) == pat,
        forall|k: int| 0 <= k < i ==> #[trigger] s.subrange(k, k + pat.len()) != pat,
    ensures
        first_occurrence(s, pat) == Some(i),
    decreases i,
{
    if i > 0 {
        let z: int = 0;
        assert(s.subrange(z, z + pat.len()) != pat);
        let t = s.drop_first();
        assert forall|k: int| 0 <= k < i - 1 implies #[trigger] t.subrange(k, k + pat.len()) != pat by {
            assert(t.subrange(k, k + pat.len()) =~= s.subrange(k + 1, k + 1 + pat.len()));
        }
        assert(t.subrange(i - 1, i - 1 + pat.len()) =~= s.subrange(i, i + pat.len()));
        lemma_occurrence_found(t, pat, i - 1);
    }
}

proof fn lemma_occurrence_absent(s: Seq<char>, pat: Seq<char>)
    requires
        forall|k: int| 0 <= k && k + pat.len() <= s.len() ==> #[trigger] s.subrange(k, k + pat.len()) != pat,
    ensures
        first_occurrence(s, pat) is None,
    decreases s.len(),
{
    if s.len() >= pat.len() && s.len() > 0 {
        assert(s.subrange(0int, 0int + pat.len()) != pat);
        let t = s.drop_first();
        assert forall|k: int| 0 <= k && k + pat.len() <= t.len() implies #[trigger] t.subrange(k, k + pat.len()) != pat by {
            assert(t.subrange(k, k + pat.len()) =~= s.subrange(k + 1, k + 1 + pat.len()));
        }
        lemma_occurrence_absent(t, pat);
    } else if s.len() >= pat.len() {
        assert(s.subrange(0int, 0int + pat.len()) != pat);
    }
}

/// Whether `pat` occurs in `s` at `at`.
fn occurs_at(s: &Vec<char>, at: usize, pat: &Vec<char>) -> (r: bool)
    requires
        at + pat.len() <= s.len(),
    ensures
        r == (s@.subrange(at as int, at + pat.len()) == pat@),
{
    let mut i: usize = 0;
    while i < pat.len()
        invariant
            i <= pat.len(),
            at + pat.len() <= s.len(),
            forall|k: int| 0 <= k < i ==> s@[at + k] == pat@[k],
        decreases pat.len() - i,
    {
        if s[at + i] != pat[i] {
            assert(s@.subrange(at as int, at + pat.len())[i as int] != pat@[i as int]);
            return false;
        }
        i = i + 1;
    }
    assert(s@.subrange(at as int, at + pat.len()) =~= pat@);
    true
}

/// The first occurrence of `pat` in `s[from..to]`, relative to `from`.
fn find_pattern(s: &Vec<char>, from: usize, to: usize, pat: &Vec<char>) -> (r: Option<usize>)
    requires
        from <= to <= s.len(),
        pat.len() > 0,
    ensures
        match first_occurrence(s@.subrange(from as int, to as int), pat@) {
            Some(i) => r == Some(i as usize) && 0 <= i && from + i + pat.len() <= to,
            None => r is None,
        },
{
    let ghost t = s@.subrange(from as int, to as int);
    if to - from < pat.len() {
        proof { lemma_occurrence_absent(t, pat@); }
        return None;
    }
    let last = to - pat.len();
    let mut i: usize = from;
    while i <= last
        invariant
            from <= i <= last + 1,
            last + pat.len() == to,
            pat.len() > 0,
            to <= s.len(),
            t == s@.subrange(from as int, to as int),
            forall|k: int| 0 <= k < i - from ==> #[trigger] t.subrange(k, k + pat@.len()) != pat@,
        decreases last + 1 - i,
    {
        assert(t.subrange(i - from, i - from + pat@.len()) =~= s@.subrange(i as int, i + pat@.len()));
        if occurs_at(s, i, pat) {
            proof { lemma_occurrence_found(t, pat@, i - from); }
            return Some(i - from);
        }
        i = i + 1;
    }
    proof { lemma_occurrence_absent(t, pat@); }
    None
}

/// Bounds `(a, b)` such that `s[a..b]` is `s[from..to]` trimmed of whitespace.
fn trim_range(s: &Vec<char>, from: usize, to: usize) -> (r: (usize, usize))
    requires
        from <= to <= s.len(),
    ensures
        from <= r.0 <= r.1 <= to,
        s@.subrange(r.0 as int, r.1 as int) == trim(s@.subrange(from as int, to as int)),
{
    let v = sub_vec(s, from, to);
    let (a, b) = trim_bounds(&v);
    assert(v@.subrange(a as int, b as int) =~= s@.subrange(from + a, from + b));
    (from + a, from + b)
}

proof fn lemma_strip_start_skip(s: Seq<char>, i: int)
    requires
        0 <= i <= s.len(),
        forall|k: int| 0 <= k < i ==> #[trigger] s[k] == '"',
    ensures
        strip_quotes_start(s) == strip_quotes_start(s.subrange(i, s.len() as int)),
    decreases i,
{
    if i > 0 {
        assert(s.drop_first().subrange(i - 1, s.drop_first().len() as int) =~= s.subrange(i, s.len() as int));
        lemma_strip_start_skip(s.drop_first(), i - 1);
    } else {
        assert(s.subrange(0, s.len() as int) =~= s);
    }
}

proof fn lemma_strip_end_skip(s: Seq<char>, j: int)
    requires
        0 <= j <= s.len(),
        forall|k: int| j <= k < s.len() ==> #[trigger] s[k] == '"',
    ensures
        strip_quotes_end(s) == strip_quotes_end(s.subrange(0, j)),
    decreases s.len() - j,
{
    if j < s.len() {
        assert(s.drop_last().subrange(0, j) =~= s.subrange(0, j));
        lemma_strip_end_skip(s.drop_last(), j);
    } else {
        assert(s.subrange(0, j) =~= s);
    }
}

/// Bounds `(a, b)` such that `s[a..b]` is `s[from..to]` stripped of double
/// quotes at both ends.
fn strip_quotes_range(s: &Vec<char>, from: usize, to: usize) -> (r: (usize, usize))
    requires
        from <= to <= s.len(),
    ensures
        from <= r.0 <= r.1 <= to,
        s@.subrange(r.0 as int, r.1 as int) == strip_quotes(s@.subrange(from as int, to as int)),
{
    let ghost t = s@.subrange(from as int, to as int);
    let mut a: usize = from;
    while a < to && s[a] == '"'
        invariant
            from <= a <= to <= s.len(),
            t == s@.subrange(from as int, to as int),
            forall|k: int| 0 <= k < a - from ==> #[trigger] t[k] == '"',
        decreases to - a,
    {
        a = a + 1;
    }
    proof {
        lemma_strip_start_skip(t, a - from);
        let rest = t.subrange(a - from, t.len() as int);
        assert(rest =~= s@.subrange(a as int, to as int));
        if a < to {
            assert(rest[0] != '"');
        }
        assert(strip_quotes_start(rest) == rest);
    }
    let mut b: usize = to;
    while b > a && s[b - 1] == '"'
        invariant
            from <= a <= b <= to <= s.len(),
            forall|k: int| b <= k < to ==> #[trigger] s@[k] == '"',
        decreases b,
    {
        b = b - 1;
    }
    proof {
        let rest = s@.subrange(a as int, to as int);
        assert forall|k: int| b - a <= k < rest.len() implies #[trigger] rest[k] == '"' by {
            assert(rest[k] == s@[k + a]);
        }
        lemma_strip_end_skip(rest, b - a);
        let mid = rest.subrange(0, b - a);
        assert(mid =~= s@.subrange(a as int, b as int));
        if b > a {
            assert(mid.last() != '"');
        }
        assert(strip_quotes_end(mid) == mid);
    }
    (a, b)
}

/// Where the version declared by the line `s[from..to]` lies, if it
/// declares one.
fn read_line_version(s: &Vec<char>, from: usize, to: usize, key: &Vec<char>) -> (r: Option<(usize, usize)>)
    requires
        from <= to <= s.len(),
        key@ == version_key(),
    ensures
        match line_version(s@.subrange(from as int, to as int)) {
            Some(v) => r matches Some((a, b)) && a <= b <= s.len() && s@.subrange(a as int, b as int) == v,
            None => r is None,
        },
{
    let ghost line = s@.subrange(from as int, to as int);
    let (ta, tb) = trim_range(s, from, to);
    let ghost t = s@.subrange(ta as int, tb as int);
    if tb - ta >= 10 {
        assert(t.subrange(0, 10) =~= s@.subrange(ta as int, ta + 10));
        if occurs_at(s, ta, key) {
            let (qa, qb) = strip_quotes_range(s, ta + 10, tb);
            assert(t.subrange(10, t.len() as int) =~= s@.subrange(ta + 10, tb as int));
            return Some((qa, qb));
        }
    }
    None
}

/// Reads the package version of a Cargo manifest: the first `version = `
/// line of the `[package]` section, with its quotes removed. An empty
/// version, or none, gives `None`.
pub fn parse_sdk_version(manifest: &str) -> (r: Option<String>)
    ensures
        match sdk_version_spec(manifest@) {
            Some(v) => r matches Some(s) && s@ == v,
            None => r is None,
        },
{
    let m = chars_of(manifest);
    let n = m.len();
    let header: Vec<char> = vec!['[', 'p', 'a', 'c', 'k', 'a', 'g', 'e', ']'];
    let opener: Vec<char> = vec!['\n', '['];
    let key: Vec<char> = vec!['v', 'e', 'r', 's', 'i', 'o', 'n', ' ', '=', ' '];
    assert(header@ == package_header());
    assert(opener@ == section_start());
    assert(key@ == version_key());
    assert(m@.subrange(0, n as int) =~= m@);
    let rest_start = match find_pattern(&m, 0, n, &header) {
        Some(i) => i + 9,
        None => 0,
    };
    assert(m@.subrange(rest_start as int, n as int) == after_package_header(m@));
    let (ss, se) = match find_pattern(&m, rest_start, n, &opener) {
        Some(j) => (rest_start, rest_start + j),
        None => (0, n),
    };
    assert(m@.subrange(ss as int, se as int) == package_section(m@));
    match scan_section(&m, ss, se, &key) {
        None => None,
        Some((qa, qb)) => {
            if qa == qb {
                None
            } else {
                Some(manifest.substring_char(qa, qb).to_owned())
            }
        },
    }
}

/// Where the version declared by the first version line of `s[ss..se]` lies.
fn scan_section(m: &Vec<char>, ss: usize, se: usize, key: &Vec<char>) -> (r: Option<(usize, usize)>)
    requires
        ss <= se <= m.len(),
        key@ == version_key(),
    ensures
        match first_line_version(m@.subrange(ss as int, se as int)) {
            Some(v) => r matches Some((a, b)) && a <= b <= m.len() && m@.subrange(a as int, b as int) == v,
            None => r is None,
        },
{
    let mut pos: usize = ss;
    loop
        invariant
            ss <= pos <= se <= m.len(),
            key@ == version_key(),
            first_line_version(m@.subrange(ss as int, se as int)) == first_line_version(m@.subrange(pos as int, se as int)),
        decreases se - pos,
    {
        let ghost cur = m@.subrange(pos as int, se as int);
        let nl = find_char(m, pos, se, '\n');
        let line_end = match nl {
            Some(k) => pos + k,
            None => se,
        };
        let ghost line = m@.subrange(pos as int, line_end as int);
        proof {
            lemma_first_line_step(cur);
            match first_index_of(cur, '\n') {
                Some(k) => assert(cur.subrange(0, k) =~= line),
                None => assert(cur =~= line),
            }
        }
        let found = read_line_version(m, pos, line_end, key);
        if found.is_some() {
            return found;
        }
        match nl {
            None => {
                return None;
            },
            Some(k) => {
                assert(cur.subrange(k + 1, cur.len() as int) =~= m@.subrange(pos + k + 1, se as int));
                pos = pos + k + 1;
            },
        }
    }
}

} // verus!
