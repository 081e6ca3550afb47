//! Unsigned decimal numbers: reading them the way `str::parse::<u64>` does,
//! and writing them the way `format!("{}", n)` does.
use vstd::prelude::*;

verus! {

/// Why a decimal number could not be read, mirroring `std::num::IntErrorKind`.
#[derive(Debug, Clone, Copy, PartialEq, Eq, Structural)]
pub enum ParseIntErrorKind {
    /// The text was empty.
    Empty,
    /// The text held a character that is not a decimal digit.
    InvalidDigit,
    /// The number does not fit in a `u64`.
    PosOverflow,
}

/// The text that describes each kind of failure, as `u64::from_str`'s error
/// shows it.
pub open spec fn parse_error_text(kind: ParseIntErrorKind) -> Seq<char> {
    match kind {
        ParseIntErrorKind::Empty => "cannot parse integer from empty string"@,
        ParseIntErrorKind::InvalidDigit => "invalid digit found in string"@,
        ParseIntErrorKind::PosOverflow => "number too large to fit in target type"@,
    }
}

impl ParseIntErrorKind {
    /// Describes the failure.
    pub fn description(&self) -> (r: &'static str)
        ensures
            r@ == parse_error_text(*self),
    {
        match self {
            ParseIntErrorKind::Empty => "cannot parse integer from empty string",
            ParseIntErrorKind::InvalidDigit => "invalid digit found in string",
            ParseIntErrorKind::PosOverflow => "number too large to fit in target type",
        }
    }
}

pub open spec fn is_ascii_digit(c: char) -> bool {
    '0' <= c && c <= '9'
}

pub open spec fn digit_value(c: char) -> int {
    c as int - '0' as int
}

/// Reads the digits of `s` from left to right; the first character that is
/// not a digit, or the first digit that makes the value exceed `u64::MAX`,
/// decides the error.
pub open spec fn accumulate_digits(s: Seq<char>) -> Result<u64, ParseIntErrorKind>
    decreases s.len(),
{
    if s.len() == 0 {
        Ok(0u64)
    } else {
        match accumulate_digits(s.drop_last()) {
            Err(e) => Err(e),
            Ok(acc) => if !is_ascii_digit(s.last()) {
                Err(ParseIntErrorKind::InvalidDigit)
            } else if acc * 10 + digit_value(s.last()) > u64::MAX {
                Err(ParseIntErrorKind::PosOverflow)
            } else {
                Ok((acc * 10 + digit_value(s.last())) as u64)
            },
        }
    }
}

/// The value of `s` as an unsigned decimal number: an optional `+` followed
/// by digits, as `u64::from_str` accepts it.
pub open spec fn parse_u64_spec(s: Seq<char>) -> Result<u64, ParseIntErrorKind> {
    if s.len() == 0 {
        Err(ParseIntErrorKind::Empty)
    } else if s.len() == 1 && (s[0] == '+' || s[0] == '-') {
        Err(ParseIntErrorKind::InvalidDigit)
    } else if s[0] == '+' {
        accumulate_digits(s.drop_first())
    } else {
        accumulate_digits(s)
    }
}

/// The ASCII code of the decimal digit `d` (`d < 10`).
pub open spec fn digit_byte(d: nat) -> u8 {
    (d + 48) as u8
}

/// The decimal digits of `n`, most significant first, without leading zeros.
pub open spec fn decimal_bytes(n: nat) -> Seq<u8>
    decreases n,
{
    if n < 10 {
        seq![digit_byte(n)]
    } else {
        decimal_bytes(n / 10).push(digit_byte(n % 10))
    }
}

/// The decimal digits of `n` as characters.
pub open spec fn decimal_chars(n: nat) -> Seq<char> {
    decimal_bytes(n).map_values(|b: u8| b as char)
}

/// Reads `s[from..to]` as an unsigned decimal number.
fn accumulate_digits_exec(s: &Vec<char>, from: usize, to: usize) -> (r: Result<u64, ParseIntErrorKind>)
    requires
        from <= to <= s.len(),
    ensures
        r == accumulate_digits(s@.subrange(from as int, to as int)),
{
    let mut acc: u64 = 0;
    let mut i: usize = from;
    assert(s@.subrange(from as int, from as int).len() == 0);
    while i < to
        invariant
            from <= i <= to <= s.len(),
            accumulate_digits(s@.subrange(from as int, i as int)) == Ok::<u64, ParseIntErrorKind>(acc),
        decreases to - i,
    {
        let c = s[i];
        let ghost next = s@.subrange(from as int, i + 1);
        assert(next.drop_last() =~= s@.subrange(from as int, i as int));
        assert(next.last() == c);
        let ghost whole = s@.subrange(from as int, to as int);
        assert(next =~= whole.subrange(0, i - from + 1));
        if !('0' <= c && c <= '9') {
            assert(accumulate_digits(next) is Err);
            proof { lemma_accumulate_stops(s@.subrange(from as int, to as int), i - from); }
            return Err(ParseIntErrorKind::InvalidDigit);
        }
        let d: u64 = (c as u32 - '0' as u32) as u64;
        if acc > (u64::MAX - d) / 10 {
            assert(acc * 10 + d > u64::MAX) by (nonlinear_arith)
                requires acc > (u64::MAX - d) / 10, d <= 9;
            assert(accumulate_digits(next) is Err);
            proof { lemma_accumulate_stops(s@.subrange(from as int, to as int), i - from); }
            return Err(ParseIntErrorKind::PosOverflow);
        }
        acc = acc * 10 + d;
        i = i + 1;
    }
    acc_ok(acc)
}

fn acc_ok(acc: u64) -> (r: Result<u64, ParseIntErrorKind>)
    ensures
        r == Ok::<u64, ParseIntErrorKind>(acc),
{
    Ok(acc)
}

/// Once the digits of a prefix fail, every longer text fails the same way.
proof fn lemma_accumulate_stops(s: Seq<char>, i: int)
    requires
        0 <= i < s.len(),
        accumulate_digits(s.subrange(0, i + 1)) is Err,
    ensures
        accumulate_digits(s) == accumulate_digits(s.subrange(0, i + 1)),
    decreases s.len() - i,
{
    if i + 1 < s.len() {
        assert(s.drop_last().subrange(0, i + 1) =~= s.subrange(0, i + 1));
        lemma_accumulate_stops(s.drop_last(), i);
    } else {
        assert(s.subrange(0, i + 1) =~= s);
    }
}

/// Reads `s` as `str::parse::<u64>` does: an optional `+` followed by one or
/// more decimal digits, with no surrounding whitespace.
pub fn parse_u64(s: &Vec<char>) -> (r: Result<u64, ParseIntErrorKind>)
    ensures
        r == parse_u64_spec(s@),
{
    let n = s.len();
    if n == 0 {
        return Err(ParseIntErrorKind::Empty);
    }
    if n == 1 && (s[0] == '+' || s[0] == '-') {
        return Err(ParseIntErrorKind::InvalidDigit);
    }
    if s[0] == '+' {
        assert(s@.subrange(1, n as int) =~= s@.drop_first());
        accumulate_digits_exec(s, 1, n)
    } else {
        assert(s@.subrange(0, n as int) =~= s@);
        accumulate_digits_exec(s, 0, n)
    }
}

/// The decimal digits of `n` as ASCII bytes, as `format!("{}", n)` writes them.
pub fn decimal_digits(n: u64) -> (v: Vec<u8>)
    ensures
        v@ == decimal_bytes(n as nat),
{
    let mut v: Vec<u8> = Vec::new();
    let mut m: u64 = n;
    loop
        invariant
            decimal_bytes(n as nat) == decimal_bytes(m as nat) + v@,
        decreases m,
    {
        let d: u8 = (m % 10) as u8;
        v.insert(0, d + 48);
        if m < 10 {
            assert(decimal_bytes(n as nat) =~= v@);
            return v;
        }
        let ghost old_m = m;
        m = m / 10;
        assert(decimal_bytes(old_m as nat) == decimal_bytes(m as nat).push(digit_byte((old_m % 10) as nat)));
        assert(decimal_bytes(n as nat) =~= decimal_bytes(m as nat) + v@);
    }
}

pub proof fn lemma_decimal_bytes_digits(n: nat)
    ensures
        decimal_bytes(n).len() > 0,
        forall|k: int| 0 <= k < decimal_bytes(n).len() ==> 48 <= #[trigger] decimal_bytes(n)[k] <= 57,
    decreases n,
{
    if n >= 10 {
        lemma_decimal_bytes_digits(n / 10);
    }
}

proof fn lemma_accumulate_decimal(n: nat)
    requires
        n <= u64::MAX,
    ensures
        accumulate_digits(decimal_chars(n)) == Ok::<u64, ParseIntErrorKind>(n as u64),
    decreases n,
{
    let s = decimal_chars(n);
    if n < 10 {
        assert(s.drop_last() =~= Seq::<char>::empty());
        assert(accumulate_digits(Seq::<char>::empty()) == Ok::<u64, ParseIntErrorKind>(0u64));
    } else {
        lemma_accumulate_decimal(n / 10);
        assert(s.drop_last() =~= decimal_chars(n / 10));
        assert((n / 10) * 10 + n % 10 == n) by (nonlinear_arith);
    }
}

/// Reading back the decimal digits that `decimal_digits` writes gives the
/// number that was written.
pub proof fn lemma_parse_decimal_roundtrip(n: u64)
    ensures
        parse_u64_spec(decimal_chars(n as nat)) == Ok::<u64, ParseIntErrorKind>(n),
{
    lemma_decimal_bytes_digits(n as nat);
    lemma_accumulate_decimal(n as nat);
    let s = decimal_chars(n as nat);
    assert(s[0] == decimal_bytes(n as nat)[0] as char);
    if s.len() == 1 {
        assert(s[0] != '+' && s[0] != '-');
    }
}

} // verus!
