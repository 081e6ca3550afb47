//! The developer-portal code samples: the checks that a generated catalog of
//! samples must pass, and the scratch project in which the samples are
//! compiled against the local SDK.
use crate::decimal::{decimal_bytes, decimal_chars, decimal_digits, lemma_decimal_bytes_digits};
use crate::text::chars_of;
use vstd::prelude::*;

verus! {

/// Why a catalog of code samples was refused.
#[derive(Debug, Clone, Copy, PartialEq, Eq, Structural)]
pub enum CatalogError {
    /// Two runs of the generator gave different catalogs.
    NotDeterministic,
    /// The catalog holds no sample.
    Empty,
    /// Two neighbouring samples do not have strictly increasing IDs.
    UnsortedIds,
}

/// The text that reports each refusal.
pub open spec fn catalog_error_text(e: CatalogError) -> Seq<char> {
    match e {
        CatalogError::NotDeterministic => "Code sample generation is not deterministic"@,
        CatalogError::Empty => "Code sample catalog is empty"@,
        CatalogError::UnsortedIds => "Code sample IDs are duplicated or unsorted"@,
    }
}

impl CatalogError {
    /// The text that reports the refusal.
    pub fn message(&self) -> (r: &'static str)
        ensures
            r@ == catalog_error_text(*self),
    {
        match self {
            CatalogError::NotDeterministic => "Code sample generation is not deterministic",
            CatalogError::Empty => "Code sample catalog is empty",
            CatalogError::UnsortedIds => "Code sample IDs are duplicated or unsorted",
        }
    }
}

/// `a` comes strictly before `b` in the order of `str`: the first differing
/// character decides by its code point, and a proper prefix comes first.
pub open spec fn text_lt(a: Seq<char>, b: Seq<char>) -> bool
    decreases a.len(),
{
    if b.len() == 0 {
        false
    } else if a.len() == 0 {
        true
    } else if a[0] != b[0] {
        (a[0] as u32) < (b[0] as u32)
    } else {
        text_lt(a.drop_first(), b.drop_first())
    }
}

/// Every ID comes strictly before the next one.
pub open spec fn strictly_increasing(ids: Seq<Seq<char>>) -> bool {
    forall|i: int| 0 <= i < ids.len() - 1 ==> text_lt(#[trigger] ids[i], ids[i + 1])
}

/// The verdict on a catalog, given its encodings from two runs of the
/// generator and the IDs of its samples in order: the runs must agree, the
/// catalog must not be empty, and the IDs must be strictly increasing.
pub open spec fn catalog_verdict(first: Seq<u8>, second: Seq<u8>, ids: Seq<Seq<char>>) -> Result<(), CatalogError> {
    if first != second {
        Err(CatalogError::NotDeterministic)
    } else if ids.len() == 0 {
        Err(CatalogError::Empty)
    } else if !strictly_increasing(ids) {
        Err(CatalogError::UnsortedIds)
    } else {
        Ok(())
    }
}

/// The texts of a list of strings.
pub open spec fn string_texts(v: Seq<String>) -> Seq<Seq<char>> {
    v.map_values(|s: String| s@)
}

/// Whether `a` comes strictly before `b`.
fn text_less(a: &Vec<char>, b: &Vec<char>) -> (r: bool)
    ensures
        r == text_lt(a@, b@),
{
    let mut i: usize = 0;
    assert(a@.skip(0) =~= a@);
    assert(b@.skip(0) =~= b@);
    while i < a.len() && i < b.len() && a[i] == b[i]
        invariant
            i <= a.len(),
            i <= b.len(),
            text_lt(a@, b@) == text_lt(a@.skip(i as int), b@.skip(i as int)),
        decreases a.len() - i,
    {
        assert(a@.skip(i as int).drop_first() =~= a@.skip(i + 1));
        assert(b@.skip(i as int).drop_first() =~= b@.skip(i + 1));
        i = i + 1;
    }
    if i == b.len() {
        false
    } else if i == a.len() {
        true
    } else {
        (a[i] as u32) < (b[i] as u32)
    }
}

/// Whether two byte strings are equal.
fn same_bytes(a: &[u8], b: &[u8]) -> (r: bool)
    ensures
        r == (a@ == b@),
{
    if a.len() != b.len() {
        return false;
    }
    let mut i: usize = 0;
    while i < a.len()
        invariant
            a@.len() == b@.len(),
            i <= a@.len(),
            a@.subrange(0, i as int) == b@.subrange(0, i as int),
        decreases a.len() - i,
    {
        if a[i] != b[i] {
            assert(a@[i as int] != b@[i as int]);
            return false;
        }
        assert(a@.subrange(0, i + 1) =~= a@.subrange(0, i as int).push(a@[i as int]));
        assert(b@.subrange(0, i + 1) =~= b@.subrange(0, i as int).push(b@[i as int]));
        i = i + 1;
    }
    assert(a@ =~= a@.subrange(0, i as int));
    assert(b@ =~= b@.subrange(0, i as int));
    true
}

/// Checks a generated catalog of code samples: `first_json` and
/// `second_json` are its encodings from two runs of the generator, `ids` the
/// IDs of its samples in catalog order.
pub fn check_catalog(first_json: &[u8], second_json: &[u8], ids: &[String]) -> (r: Result<(), CatalogError>)
    ensures
        r == catalog_verdict(first_json@, second_json@, string_texts(ids@)),
{
    if !same_bytes(first_json, second_json) {
        return Err(CatalogError::NotDeterministic);
    }
    if ids.len() == 0 {
        return Err(CatalogError::Empty);
    }
    let ghost texts = string_texts(ids@);
    let mut i: usize = 0;
    while i + 1 < ids.len()
        invariant
            texts == string_texts(ids@),
            first_json@ == second_json@,
            ids@.len() > 0,
            i + 1 <= ids@.len(),
            forall|j: int| 0 <= j < i ==> text_lt(#[trigger] texts[j], texts[j + 1]),
        decreases ids.len() - i,
    {
        let a = chars_of(ids[i].as_str());
        let b = chars_of(ids[i + 1].as_str());
        if !text_less(&a, &b) {
            assert(!text_lt(texts[i as int], texts[i + 1]));
            assert(!strictly_increasing(texts));
            return Err(CatalogError::UnsortedIds);
        }
        i = i + 1;
    }
    Ok(())
}

/// `digits` padded on the left with zeros to at least `width` characters.
pub open spec fn zero_padded(digits: Seq<char>, width: nat) -> Seq<char> {
    if digits.len() < width {
        Seq::new((width - digits.len()) as nat, |k: int| '0') + digits
    } else {
        digits
    }
}

/// The text of one decimal digit, given by its ASCII code.
fn digit_text(b: u8) -> (r: &'static str)
    requires
        48 <= b <= 57,
    ensures
        r@ == seq![b as char],
{
    proof {
        reveal_strlit("0");
        reveal_strlit("1");
        reveal_strlit("2");
        reveal_strlit("3");
        reveal_strlit("4");
        reveal_strlit("5");
        reveal_strlit("6");
        reveal_strlit("7");
        reveal_strlit("8");
        reveal_strlit("9");
    }
    match b {
        48 => "0",
        49 => "1",
        50 => "2",
        51 => "3",
        52 => "4",
        53 => "5",
        54 => "6",
        55 => "7",
        56 => "8",
        _ => "9",
    }
}

/// Appends `n` in decimal, padded with zeros to at least `width` digits.
pub(crate) fn push_padded_decimal(s: &mut String, n: u64, width: usize)
    ensures
        final(s)@ == old(s)@ + zero_padded(decimal_chars(n as nat), width as nat),
{
    let digits = decimal_digits(n);
    proof { lemma_decimal_bytes_digits(n as nat); }
    let ghost text = decimal_chars(n as nat);
    let ghost start = s@;
    let mut k: usize = digits.len();
    let mut zeros: usize = 0;
    while k < width
        invariant
            digits@ == decimal_bytes(n as nat),
            k == digits@.len() + zeros,
            digits@.len() <= k,
            k <= width || zeros == 0,
            s@ == start + Seq::new(zeros as nat, |j: int| '0'),
        decreases width - k,
    {
        s.append("0");
        proof { reveal_strlit("0"); }
        assert(s@ =~= start + Seq::new((zeros + 1) as nat, |j: int| '0'));
        k = k + 1;
        zeros = zeros + 1;
    }
    let ghost padded = s@;
    let mut i: usize = 0;
    while i < digits.len()
        invariant
            digits@ == decimal_bytes(n as nat),
            text == decimal_chars(n as nat),
            i <= digits@.len(),
            forall|j: int| 0 <= j < digits@.len() ==> 48 <= #[trigger] digits@[j] <= 57,
            s@ == padded + text.subrange(0, i as int),
        decreases digits.len() - i,
    {
        let d = digit_text(digits[i]);
        s.append(d);
        assert(text.subrange(0, i + 1) =~= text.subrange(0, i as int).push(text[i as int]));
        i = i + 1;
    }
    assert(text.subrange(0, i as int) =~= text);
    assert(zero_padded(text, width as nat) =~= Seq::new(zeros as nat, |j: int| '0') + text);
}

/// The name of the source file of the sample at `index`: `sample_`, the
/// index padded with zeros to three digits, and `.rs`.
pub open spec fn sample_file_name_text(index: nat) -> Seq<char> {
    "sample_"@ + zero_padded(decimal_chars(index), 3) + ".rs"@
}

/// The name of the source file of the sample at `index`.
pub fn sample_file_name(index: usize) -> (r: String)
    ensures
        r@ == sample_file_name_text(index as nat),
{
    let mut s = String::from_str("sample_");
    push_padded_decimal(&mut s, index as u64, 3);
    s.append(".rs");
    s
}

/// How long a generation run took, given in microseconds: whole seconds, a
/// dot, the milliseconds padded to three digits, and `s`.
pub open spec fn elapsed_text(micros: nat) -> Seq<char> {
    decimal_chars(micros / 1_000_000) + "."@ + zero_padded(decimal_chars((micros % 1_000_000) / 1_000), 3)
        + "s"@
}

/// How long a generation run took, given in microseconds.
pub fn format_elapsed(micros: u64) -> (r: String)
    ensures
        r@ == elapsed_text(micros as nat),
{
    let mut s = String::new();
    push_padded_decimal(&mut s, micros / 1_000_000, 0);
    s.append(".");
    push_padded_decimal(&mut s, (micros % 1_000_000) / 1_000, 3);
    s.append("s");
    s
}

/// `text` with each backslash doubled, as it must be written inside a TOML
/// basic string.
pub open spec fn escape_backslashes(text: Seq<char>) -> Seq<char>
    decreases text.len(),
{
    if text.len() == 0 {
        Seq::empty()
    } else {
        escape_backslashes(text.drop_last()) + if text.last() == '\\' {
            seq!['\\', '\\']
        } else {
            seq![text.last()]
        }
    }
}

/// Doubles each backslash of `text`.
pub fn escape_path(text: &str) -> (r: String)
    ensures
        r@ == escape_backslashes(text@),
{
    let chars = chars_of(text);
    let mut out = String::new();
    let mut start: usize = 0;
    let mut i: usize = 0;
    while i < chars.len()
        invariant
            chars@ == text@,
            start <= i <= chars@.len(),
            escape_backslashes(text@.subrange(0, i as int)) == out@ + text@.subrange(start as int, i as int),
        decreases chars.len() - i,
    {
        assert(text@.subrange(0, i + 1).drop_last() =~= text@.subrange(0, i as int));
        if chars[i] == '\\' {
            let ghost before = out@;
            out.append(text.substring_char(start, i + 1));
            out.append("\\");
            proof { reveal_strlit("\\"); }
            assert(text@.subrange(start as int, i + 1) =~= text@.subrange(start as int, i as int).push('\\'));
            assert(out@ =~= before + text@.subrange(start as int, i as int) + seq!['\\', '\\']);
            assert(out@ =~= escape_backslashes(text@.subrange(0, i + 1)));
            i = i + 1;
            start = i;
        } else {
            assert(text@.subrange(start as int, i + 1) =~= text@.subrange(start as int, i as int).push(chars@[i as int]));
            i = i + 1;
        }
    }
    out.append(text.substring_char(start, i));
    assert(text@.subrange(0, i as int) =~= text@);
    out
}

/// The manifest of the scratch project, up to the path of the SDK.
pub const SAMPLE_MANIFEST_HEAD: &'static str = "[package]\nname = \"sumup-generated-code-samples\"\nversion = \"0.0.0\"\nedition = \"2024\"\npublish = false\n\n[workspace]\n\n[dependencies]\nsumup = { path = \"";

/// The manifest of the scratch project, after the path of the SDK.
pub const SAMPLE_MANIFEST_TAIL: &'static str = "\", default-features = false, features = [\"chrono\"] }\nserde_json = \"1.0\"\ntokio = { version = \"1\", features = [\"macros\", \"rt-multi-thread\"] }\n";

/// The manifest of the scratch project in which the samples are compiled,
/// depending on the SDK found at `sdk_path`.
pub open spec fn sample_manifest_text(sdk_path: Seq<char>) -> Seq<char> {
    SAMPLE_MANIFEST_HEAD@ + escape_backslashes(sdk_path) + SAMPLE_MANIFEST_TAIL@
}

/// The manifest of the scratch project in which the samples are compiled.
pub fn sample_manifest(sdk_path: &str) -> (r: String)
    ensures
        r@ == sample_manifest_text(sdk_path@),
{
    let mut s = String::from_str(SAMPLE_MANIFEST_HEAD);
    let escaped = escape_path(sdk_path);
    s.append(escaped.as_str());
    s.append(SAMPLE_MANIFEST_TAIL);
    s
}

} // verus!
