//! The `WxH` argument: two numerals around a single `x`, each between 1 and 9999.

use vstd::prelude::*;
use vstd::string::*;
use crate::text::{
    decimal, digit_value, digits_value, is_digit, lemma_decimal_len, lemma_decimal_round_trip, pow10,
};

verus! {

/// Why a numeral could not be read as an unsigned 32-bit number.
#[derive(Debug, Clone, Copy, PartialEq, Eq, Structural)]
pub enum IntError {
    /// There was nothing to read.
    Empty,
    /// A character that is no digit, or a sign with nothing behind it.
    InvalidDigit,
    /// The digits denote more than 32 bits hold.
    PosOverflow,
}

/// Why a size was turned down although its numerals could be read, or before they were.
#[derive(Debug, Clone, Copy, PartialEq, Eq, Structural)]
pub enum InvalidInput {
    /// The text does not hold exactly one `x`.
    ExpectedSize,
    /// A dimension is zero or above 9999.
    OutOfRange,
}

/// Why `parse_size` turned its argument down.
#[derive(Debug, Clone, Copy, PartialEq, Eq, Structural)]
pub enum ParseError {
    /// The argument as a whole is not acceptable.
    Io(InvalidInput),
    /// One of the two numerals could not be read.
    Parse(IntError),
}

impl IntError {
    /// The text shown to the user for this error.
    pub open spec fn message_spec(self) -> Seq<char> {
        match self {
            IntError::Empty => "cannot parse integer from empty string"@,
            IntError::InvalidDigit => "invalid digit found in string"@,
            IntError::PosOverflow => "number too large to fit in target type"@,
        }
    }

    /// The text shown to the user for this error.
    pub fn message(&self) -> (r: String)
        ensures
            r@ == self.message_spec(),
    {
        match self {
            IntError::Empty => "cannot parse integer from empty string".to_owned(),
            IntError::InvalidDigit => "invalid digit found in string".to_owned(),
            IntError::PosOverflow => "number too large to fit in target type".to_owned(),
        }
    }
}

impl InvalidInput {
    /// The text shown to the user for this error.
    pub open spec fn message_spec(self) -> Seq<char> {
        match self {
            InvalidInput::ExpectedSize => "Expected WxH"@,
            InvalidInput::OutOfRange => "Expected width and height to be 1-9999"@,
        }
    }

    /// The text shown to the user for this error.
    pub fn message(&self) -> (r: String)
        ensures
            r@ == self.message_spec(),
    {
        match self {
            InvalidInput::ExpectedSize => "Expected WxH".to_owned(),
            InvalidInput::OutOfRange => "Expected width and height to be 1-9999".to_owned(),
        }
    }
}

impl ParseError {
    /// The text shown to the user: that of the error inside.
    pub open spec fn message_spec(self) -> Seq<char> {
        match self {
            ParseError::Io(e) => e.message_spec(),
            ParseError::Parse(e) => e.message_spec(),
        }
    }

    /// The text shown to the user: that of the error inside.
    pub fn message(&self) -> (r: String)
        ensures
            r@ == self.message_spec(),
    {
        match self {
            ParseError::Io(e) => e.message(),
            ParseError::Parse(e) => e.message(),
        }
    }
}

impl From<InvalidInput> for ParseError {
    fn from(err: InvalidInput) -> (r: ParseError) {
        ParseError::Io(err)
    }
}

impl vstd::std_specs::convert::FromSpecImpl<InvalidInput> for ParseError {
    open spec fn obeys_from_spec() -> bool {
        true
    }

    open spec fn from_spec(err: InvalidInput) -> ParseError {
        ParseError::Io(err)
    }
}

impl From<IntError> for ParseError {
    fn from(err: IntError) -> (r: ParseError) {
        ParseError::Parse(err)
    }
}

impl vstd::std_specs::convert::FromSpecImpl<IntError> for ParseError {
    open spec fn obeys_from_spec() -> bool {
        true
    }

    open spec fn from_spec(err: IntError) -> ParseError {
        ParseError::Parse(err)
    }
}

/// The smallest width or height that is accepted.
pub const MIN_DIMENSION: u32 = 1;

/// The largest width or height that is accepted.
pub const MAX_DIMENSION: u32 = 9999;

/// Whether `v` is acceptable as a width or a height.
pub open spec fn dimension_in_range(v: int) -> bool {
    MIN_DIMENSION <= v <= MAX_DIMENSION
}

/// How many digits stand at the front of `s`.
pub open spec fn leading_digits(s: Seq<char>) -> int
    decreases s.len(),
{
    if s.len() > 0 && is_digit(s[0]) {
        1 + leading_digits(s.skip(1))
    } else {
        0
    }
}

/// `s` without the one plus sign that may stand in front of a numeral.
pub open spec fn without_plus(s: Seq<char>) -> Seq<char> {
    if s.len() > 0 && s[0] == '+' {
        s.skip(1)
    } else {
        s
    }
}

/// What reading `s` as an unsigned 32-bit numeral gives: an optional plus sign, then
/// digits and nothing else. Where the digits in front already exceed 32 bits the
/// numeral is too large, whatever follows them; otherwise a character that is no
/// digit makes it invalid.
pub open spec fn parse_u32_spec(s: Seq<char>) -> Result<u32, IntError> {
    let digits = without_plus(s);
    let run = leading_digits(digits);
    let value = digits_value(digits.take(run));
    if s.len() == 0 {
        Err(IntError::Empty)
    } else if digits.len() == 0 {
        Err(IntError::InvalidDigit)
    } else if value > u32::MAX {
        Err(IntError::PosOverflow)
    } else if run < digits.len() {
        Err(IntError::InvalidDigit)
    } else {
        Ok(value as u32)
    }
}

/// Whether the only `x` of `s` stands at `i`.
pub open spec fn is_only_x(s: Seq<char>, i: int) -> bool {
    &&& 0 <= i < s.len()
    &&& s[i] == 'x'
    &&& forall|j: int| 0 <= j < s.len() && j != i ==> s[j] != 'x'
}

/// Whether `s` holds exactly one `x`.
pub open spec fn has_one_x(s: Seq<char>) -> bool {
    exists|i: int| is_only_x(s, i)
}

/// Where the only `x` of `s` stands.
pub open spec fn x_position(s: Seq<char>) -> int {
    choose|i: int| is_only_x(s, i)
}

/// What `parse_size` returns for the text `s`.
pub open spec fn parse_size_spec(s: Seq<char>) -> Result<(u32, u32), ParseError> {
    if !has_one_x(s) {
        Err(ParseError::Io(InvalidInput::ExpectedSize))
    } else {
        let at = x_position(s);
        match parse_u32_spec(s.take(at)) {
            Err(e) => Err(ParseError::Parse(e)),
            Ok(w) => match parse_u32_spec(s.skip(at + 1)) {
                Err(e) => Err(ParseError::Parse(e)),
                Ok(h) => if dimension_in_range(w as int) && dimension_in_range(h as int) {
                    Ok((w, h))
                } else {
                    Err(ParseError::Io(InvalidInput::OutOfRange))
                },
            },
        }
    }
}

proof fn lemma_leading_digits_bounds(s: Seq<char>)
    ensures
        0 <= leading_digits(s) <= s.len(),
    decreases s.len(),
{
    if s.len() > 0 && is_digit(s[0]) {
        lemma_leading_digits_bounds(s.skip(1));
    }
}

proof fn lemma_leading_digits_at_least(s: Seq<char>, n: int)
    requires
        0 <= n <= s.len(),
        forall|j: int| 0 <= j < n ==> is_digit(#[trigger] s[j]),
    ensures
        n <= leading_digits(s),
    decreases n,
{
    if n > 0 {
        assert(is_digit(s[0]));
        assert forall|j: int| 0 <= j < n - 1 implies is_digit(#[trigger] s.skip(1)[j]) by {
            assert(s.skip(1)[j] == s[j + 1]);
        }
        lemma_leading_digits_at_least(s.skip(1), n - 1);
    } else {
        lemma_leading_digits_bounds(s);
    }
}

proof fn lemma_leading_digits_stop(s: Seq<char>, n: int)
    requires
        0 <= n <= s.len(),
        forall|j: int| 0 <= j < n ==> is_digit(#[trigger] s[j]),
        n < s.len() ==> !is_digit(s[n]),
    ensures
        leading_digits(s) == n,
    decreases n,
{
    if n > 0 {
        assert(is_digit(s[0]));
        assert forall|j: int| 0 <= j < n - 1 implies is_digit(#[trigger] s.skip(1)[j]) by {
            assert(s.skip(1)[j] == s[j + 1]);
        }
        if n < s.len() {
            assert(s.skip(1)[n - 1] == s[n]);
        }
        lemma_leading_digits_stop(s.skip(1), n - 1);
    }
}

proof fn lemma_digits_value_step(s: Seq<char>, n: int)
    requires
        0 <= n < s.len(),
    ensures
        digits_value(s.take(n + 1)) == digits_value(s.take(n)) * 10 + digit_value(s[n]),
{
    assert(s.take(n + 1).drop_last() =~= s.take(n));
}

proof fn lemma_digits_value_grows(s: Seq<char>, a: int, b: int)
    requires
        0 <= a <= b <= s.len(),
    ensures
        digits_value(s.take(a)) <= digits_value(s.take(b)),
    decreases b - a,
{
    if a < b {
        lemma_digits_value_grows(s, a, b - 1);
        lemma_digits_value_step(s, b - 1);
    }
}

/// A numeral without sign or leading zeros is read as the number it was written for.
pub proof fn lemma_parse_u32_reads_decimal(n: nat)
    requires
        n <= u32::MAX,
    ensures
        parse_u32_spec(decimal(n)) == Ok::<u32, IntError>(n as u32),
{
    let numeral = decimal(n);
    reveal_with_fuel(pow10, 11);
    lemma_decimal_len(n, 10);
    lemma_decimal_round_trip(n);
    assert(is_digit(numeral[0]));
    assert(without_plus(numeral) == numeral);
    lemma_leading_digits_stop(numeral, numeral.len() as int);
    assert(numeral.take(numeral.len() as int) =~= numeral);
}

/// A size that is written as two such numerals around an `x` is read back as it
/// was written, if both numbers are between 1 and 9999, and is out of range if not.
pub proof fn lemma_parse_size_reads_decimal(width: nat, height: nat)
    requires
        width <= u32::MAX,
        height <= u32::MAX,
    ensures
        parse_size_spec(decimal(width) + seq!['x'] + decimal(height)) == if dimension_in_range(
            width as int,
        ) && dimension_in_range(height as int) {
            Ok::<(u32, u32), ParseError>((width as u32, height as u32))
        } else {
            Err::<(u32, u32), ParseError>(ParseError::Io(InvalidInput::OutOfRange))
        },
{
    let left = decimal(width);
    let right = decimal(height);
    let s = left + seq!['x'] + right;
    let at = left.len() as int;
    lemma_decimal_round_trip(width);
    lemma_decimal_round_trip(height);
    assert forall|j: int| 0 <= j < s.len() && j != at implies s[j] != 'x' by {
        if j < at {
            assert(s[j] == left[j]);
            assert(is_digit(left[j]));
        } else {
            assert(s[j] == right[j - at - 1]);
            assert(is_digit(right[j - at - 1]));
        }
    }
    assert(is_only_x(s, at));
    assert(x_position(s) == at);
    assert(s.take(at) =~= left);
    assert(s.skip(at + 1) =~= right);
    lemma_parse_u32_reads_decimal(width);
    lemma_parse_u32_reads_decimal(height);
}

fn collect_chars(s: &str) -> (chars: Vec<char>)
    ensures
        chars@ == s@,
{
    broadcast use vstd::string::group_string_axioms;

    let mut chars: Vec<char> = Vec::new();
    for c in it: s.chars()
        invariant
            it.seq() == s@,
            chars@ == s@.take(it.index()),
    {
        chars.push(c);
    }
    assert(s@.take(s@.len() as int) == s@);
    chars
}

/// Reads the characters of `chars` from `from` up to `to` as an unsigned 32-bit numeral.
fn parse_u32(chars: &Vec<char>, from: usize, to: usize) -> (r: Result<u32, IntError>)
    requires
        from <= to <= chars.len(),
    ensures
        r == parse_u32_spec(chars@.subrange(from as int, to as int)),
{
    let ghost s = chars@.subrange(from as int, to as int);
    if from == to {
        return Err(IntError::Empty);
    }
    let start: usize = if chars[from] == '+' {
        from + 1
    } else {
        from
    };
    let ghost digits = without_plus(s);
    assert(digits =~= chars@.subrange(start as int, to as int));
    if start == to {
        return Err(IntError::InvalidDigit);
    }
    let mut value: u32 = 0;
    let mut i: usize = start;
    proof {
        assert(digits.take(0) =~= Seq::<char>::empty());
    }
    while i < to
        invariant
            start <= i <= to <= chars.len(),
            start < to,
            s == chars@.subrange(from as int, to as int),
            s.len() > 0,
            digits == without_plus(s),
            digits == chars@.subrange(start as int, to as int),
            forall|j: int| 0 <= j < i - start ==> is_digit(#[trigger] digits[j]),
            value == digits_value(digits.take(i - start)),
        decreases to - i,
    {
        let c: char = chars[i];
        assert(c == digits[i - start]);
        if !('0' <= c && c <= '9') {
            proof {
                lemma_leading_digits_stop(digits, i - start);
            }
            return Err(IntError::InvalidDigit);
        }
        let digit: u64 = (c as u64) - ('0' as u64);
        let next: u64 = (value as u64) * 10 + digit;
        proof {
            lemma_digits_value_step(digits, i - start);
        }
        if next > u32::MAX as u64 {
            proof {
                lemma_leading_digits_at_least(digits, i - start + 1);
                lemma_leading_digits_bounds(digits);
                lemma_digits_value_grows(digits, i - start + 1, leading_digits(digits));
            }
            return Err(IntError::PosOverflow);
        }
        value = next as u32;
        i += 1;
    }
    proof {
        lemma_leading_digits_stop(digits, digits.len() as int);
        assert(digits.take(digits.len() as int) =~= digits);
    }
    Ok(value)
}

/// Reads a size written as `WxH`.
///
/// The text must hold exactly one `x`. What stands before it is the width and what
/// stands after it the height, each an unsigned numeral that may begin with a plus
/// sign. Both must lie between 1 and 9999.
pub fn parse_size(s: &str) -> (r: Result<(u32, u32), ParseError>)
    ensures
        r == parse_size_spec(s@),
        r matches Ok((w, h)) ==> dimension_in_range(w as int) && dimension_in_range(h as int),
{
    let chars = collect_chars(s);
    let n: usize = chars.len();
    let mut at: usize = 0;
    while at < n && chars[at] != 'x'
        invariant
            at <= n,
            n == chars.len(),
            forall|j: int| 0 <= j < at ==> chars[j] != 'x',
        decreases n - at,
    {
        at += 1;
    }
    if at == n {
        assert(!has_one_x(chars@));
        return Err(ParseError::Io(InvalidInput::ExpectedSize));
    }
    let mut k: usize = at + 1;
    while k < n
        invariant
            at < k <= n,
            n == chars.len(),
            chars@ == s@,
            chars[at as int] == 'x',
            forall|j: int| 0 <= j < k && j != at ==> chars[j] != 'x',
        decreases n - k,
    {
        if chars[k] == 'x' {
            assert forall|i: int| !is_only_x(chars@, i) by {
                if i == at {
                    assert(chars@[k as int] == 'x');
                } else {
                    assert(chars@[at as int] == 'x');
                }
            }
            return Err(ParseError::Io(InvalidInput::ExpectedSize));
        }
        k += 1;
    }
    assert(is_only_x(chars@, at as int));
    assert(x_position(chars@) == at);
    assert(chars@.take(at as int) =~= chars@.subrange(0, at as int));
    assert(chars@.skip(at + 1) =~= chars@.subrange(at + 1, n as int));
    let w: u32 = match parse_u32(&chars, 0, at) {
        Ok(w) => w,
        Err(e) => {
            return Err(ParseError::from(e));
        },
    };
    let h: u32 = match parse_u32(&chars, at + 1, n) {
        Ok(h) => h,
        Err(e) => {
            return Err(ParseError::from(e));
        },
    };
    if w < MIN_DIMENSION || w > MAX_DIMENSION || h < MIN_DIMENSION || h > MAX_DIMENSION {
        return Err(ParseError::Io(InvalidInput::OutOfRange));
    }
    Ok((w, h))
}

} // verus!
