//! Decimal text for unsigned and signed integers.

use vstd::prelude::*;

use crate::text::push_char;

verus! {

/// Whether `c` is one of the ASCII digits `0` to `9`.
pub open spec fn is_digit(c: char) -> bool {
    '0' <= c && c <= '9'
}

/// The numeric value of a digit character.
pub open spec fn digit_value(c: char) -> int {
    (c as int) - ('0' as int)
}

/// Every character of `s` is a digit.
pub open spec fn all_digits(s: Seq<char>) -> bool {
    forall|i: int| 0 <= i < s.len() ==> is_digit(#[trigger] s[i])
}

/// The value of a sequence of digits, most significant first.
pub open spec fn digits_value(s: Seq<char>) -> int
    decreases s.len(),
{
    if s.len() == 0 {
        0
    } else {
        digits_value(s.drop_last()) * 10 + digit_value(s.last())
    }
}

/// The text of an unsigned literal: an optional `+` followed by at least one
/// digit and nothing else. Its value, or `None` for any other text.
pub open spec fn unsigned_literal_value(s: Seq<char>) -> Option<int> {
    let body = if s.len() > 0 && s[0] == '+' { s.drop_first() } else { s };
    if body.len() > 0 && all_digits(body) {
        Some(digits_value(body))
    } else {
        None
    }
}

/// The literal's value, where it is at most `bound`.
pub open spec fn value_within(s: Seq<char>, bound: int) -> Option<int> {
    match unsigned_literal_value(s) {
        Some(v) => if v <= bound { Some(v) } else { None },
        None => None,
    }
}

/// What parsing `s` as a `u64` gives: the literal's value where it fits.
pub open spec fn u64_from_text(s: Seq<char>) -> Option<u64> {
    match value_within(s, u64::MAX as int) {
        Some(v) => Some(v as u64),
        None => None,
    }
}

/// Why a text is not an unsigned integer of the target type, as std's
/// `IntErrorKind` tells the cases apart.
#[derive(Debug, Clone, Copy, PartialEq, Eq, Structural)]
pub enum ParseFailure {
    /// The text is empty.
    Empty,
    /// A character is not a digit in its place (a lone `+` counts too).
    InvalidDigit,
    /// The number is larger than the target type holds.
    PosOverflow,
}

/// Reading `digits` from the left onto `acc`: the first character that is
/// not a digit, or the first digit that takes the number above `bound`,
/// decides the failure.
pub open spec fn scan_digits(digits: Seq<char>, acc: int, bound: int) -> Result<int, ParseFailure>
    decreases digits.len(),
{
    if digits.len() == 0 {
        Ok(acc)
    } else if !is_digit(digits[0]) {
        Err(ParseFailure::InvalidDigit)
    } else {
        let next = acc * 10 + digit_value(digits[0]);
        if next > bound {
            Err(ParseFailure::PosOverflow)
        } else {
            scan_digits(digits.drop_first(), next, bound)
        }
    }
}

/// The outcome of parsing `s` as an unsigned integer no larger than
/// `bound`: the empty text fails as empty, a lone `+` as an invalid digit,
/// and otherwise the digits after an optional `+` are read from the left.
pub open spec fn parse_outcome(s: Seq<char>, bound: int) -> Result<int, ParseFailure> {
    if s.len() == 0 {
        Err(ParseFailure::Empty)
    } else if s.len() == 1 && s[0] == '+' {
        Err(ParseFailure::InvalidDigit)
    } else if s[0] == '+' {
        scan_digits(s.drop_first(), 0, bound)
    } else {
        scan_digits(s, 0, bound)
    }
}

/// The message std gives for each way parsing an integer fails.
pub open spec fn parse_failure_text(f: ParseFailure) -> Seq<char> {
    match f {
        ParseFailure::Empty => "cannot parse integer from empty string"@,
        ParseFailure::InvalidDigit => "invalid digit found in string"@,
        ParseFailure::PosOverflow => "number too large to fit in target type"@,
    }
}

impl ParseFailure {
    /// The message of this failure, worded as std's `ParseIntError` words it.
    pub fn message(&self) -> (res: &'static str)
        ensures
            res@ == parse_failure_text(*self),
    {
        match self {
            ParseFailure::Empty => "cannot parse integer from empty string",
            ParseFailure::InvalidDigit => "invalid digit found in string",
            ParseFailure::PosOverflow => "number too large to fit in target type",
        }
    }
}

proof fn lemma_digits_value_nonneg(s: Seq<char>)
    requires
        all_digits(s),
    ensures
        digits_value(s) >= 0,
    decreases s.len(),
{
    if s.len() > 0 {
        lemma_digits_value_nonneg(s.drop_last());
    }
}

/// The value of an unsigned literal is never negative.
pub proof fn lemma_literal_value_nonneg(s: Seq<char>)
    ensures
        unsigned_literal_value(s) matches Some(v) ==> v >= 0,
{
    let body = if s.len() > 0 && s[0] == '+' { s.drop_first() } else { s };
    if body.len() > 0 && all_digits(body) {
        lemma_digits_value_nonneg(body);
    }
}

proof fn lemma_digits_value_prefix(s: Seq<char>, k: int)
    requires
        all_digits(s),
        0 <= k <= s.len(),
    ensures
        digits_value(s.take(k)) <= digits_value(s),
    decreases s.len(),
{
    if k < s.len() {
        lemma_digits_value_prefix(s.drop_last(), k);
        assert(s.drop_last().take(k) =~= s.take(k));
        lemma_digits_value_nonneg(s.drop_last());
    } else {
        assert(s.take(k) =~= s);
    }
}

/// The part of `text` after its optional leading `+`.
proof fn lemma_body_of_text(text: Seq<char>, signed: bool)
    requires
        signed ==> text.len() > 0 && text[0] == '+',
        !signed ==> !(text.len() > 0 && text[0] == '+'),
    ensures
        (if text.len() > 0 && text[0] == '+' { text.drop_first() } else { text })
            =~= text.subrange(if signed { 1int } else { 0 }, text.len() as int),
{
}

/// Parses an unsigned integer no larger than `bound` in the way
/// `str::parse` does for an unsigned type whose largest value is `bound`:
/// an optional `+`, then one or more ASCII digits, with a value that fits;
/// otherwise it says why not.
pub fn parse_unsigned(s: &str, bound: u64) -> (res: Result<u64, ParseFailure>)
    ensures
        match res {
            Ok(v) => {
                &&& value_within(s@, bound as int) == Some(v as int)
                &&& parse_outcome(s@, bound as int) == Ok::<int, ParseFailure>(v as int)
            },
            Err(f) => {
                &&& value_within(s@, bound as int) is None
                &&& parse_outcome(s@, bound as int) == Err::<int, ParseFailure>(f)
            },
        },
{
    let ghost text = s@;
    let mut acc: u64 = 0;
    let mut seen_digit = false;
    let mut signed = false;
    let mut at_start = true;
    for c in it: s.chars()
        invariant
            it.seq() == text,
            text == s@,
            at_start <==> it.index() == 0,
            signed ==> text.len() > 0 && text[0] == '+',
            !signed ==> (it.index() == 0 || text[0] != '+'),
            signed ==> it.index() >= 1,
            seen_digit <==> it.index() > (if signed { 1int } else { 0 }),
            all_digits(text.subrange(if signed { 1int } else { 0 }, it.index())),
            acc as int == digits_value(text.subrange(if signed { 1int } else { 0 }, it.index())),
            acc <= bound,
            !at_start ==> parse_outcome(text, bound as int) == (if signed && text.len() == 1 {
                Err(ParseFailure::InvalidDigit)
            } else {
                scan_digits(text.subrange(it.index(), text.len() as int), acc as int, bound as int)
            }),
    {
        let ghost start: int = if signed { 1int } else { 0 };
        let ghost idx = it.index();
        let ghost rest = text.subrange(idx, text.len() as int);
        proof {
            assert(text.subrange(start, idx + 1).drop_last() =~= text.subrange(start, idx));
            assert(rest.drop_first() =~= text.subrange(idx + 1, text.len() as int));
            assert(c == text[idx]);
            assert(rest[0] == c);
            if at_start {
                assert(text.subrange(0, text.len() as int) =~= text);
                assert(text.drop_first() =~= text.subrange(1, text.len() as int));
            }
        }
        if at_start && c == '+' {
            signed = true;
            assert(text.subrange(1, 1) =~= Seq::<char>::empty());
        } else if '0' <= c && c <= '9' {
            let d: u64 = ((c as u32) - ('0' as u32)) as u64;
            proof {
                assert(digit_value(c) == d as int);
            }
            if d > bound || acc > (bound - d) / 10 {
                proof {
                    assert(acc * 10 + d > bound) by (nonlinear_arith)
                        requires d > bound || acc > (bound - d) / 10, d <= 9, acc >= 0;
                    let body = text.subrange(start, text.len() as int);
                    if all_digits(body) {
                        assert(body.take(idx + 1 - start) =~= text.subrange(start, idx + 1));
                        lemma_digits_value_prefix(body, idx + 1 - start);
                        let pre = text.subrange(start, idx + 1);
                        assert(pre.last() == c);
                        assert(digits_value(pre) == digits_value(pre.drop_last()) * 10 + digit_value(pre.last()));
                        assert(digits_value(pre) == acc * 10 + d);
                    }
                    lemma_body_of_text(text, signed);
                }
                return Err(ParseFailure::PosOverflow);
            }
            proof {
                assert(acc * 10 + d <= bound) by (nonlinear_arith)
                    requires d <= bound, acc <= (bound - d) / 10, d <= 9, acc >= 0;
            }
            acc = acc * 10 + d;
            seen_digit = true;
        } else {
            proof {
                let body = text.subrange(start, text.len() as int);
                assert(body[idx - start] == c);
                assert(!is_digit(body[idx - start]));
                lemma_body_of_text(text, signed);
            }
            return Err(ParseFailure::InvalidDigit);
        }
        at_start = false;
    }
    proof {
        lemma_body_of_text(text, signed);
        assert(text.subrange(text.len() as int, text.len() as int) =~= Seq::<char>::empty());
    }
    if at_start {
        Err(ParseFailure::Empty)
    } else if !seen_digit {
        Err(ParseFailure::InvalidDigit)
    } else {
        Ok(acc)
    }
}

/// Parses a decimal `u64` in the way `str::parse::<u64>` accepts it: an
/// optional `+`, then one or more ASCII digits, with a value that fits.
pub fn parse_u64(s: &str) -> (res: Option<u64>)
    ensures
        res == u64_from_text(s@),
{
    match parse_unsigned(s, u64::MAX) {
        Ok(v) => Some(v),
        Err(_) => None,
    }
}

/// The digit character for a value below ten.
pub open spec fn digit_char(d: int) -> char {
    ((d + 48) as u32) as char
}

/// The decimal text of `n`: its digits, most significant first, with no
/// leading zero (`"0"` for zero).
pub open spec fn decimal_digits(n: nat) -> Seq<char>
    decreases n,
{
    if n < 10 {
        seq![digit_char(n as int)]
    } else {
        decimal_digits(n / 10).push(digit_char((n % 10) as int))
    }
}

/// The decimal text of a signed number: a `-` before the digits of its
/// magnitude when it is negative.
pub open spec fn signed_decimal_digits(n: int) -> Seq<char> {
    if n < 0 {
        seq!['-'] + decimal_digits((-n) as nat)
    } else {
        decimal_digits(n as nat)
    }
}

fn push_decimal(out: &mut String, n: u64)
    ensures
        final(out)@ == old(out)@ + decimal_digits(n as nat),
    decreases n,
{
    if n >= 10 {
        push_decimal(out, n / 10);
    }
    let d: u8 = (n % 10) as u8;
    let c: char = (d + 48) as char;
    push_char(out, c);
    proof {
        assert(old(out)@ + decimal_digits(n as nat) =~= final(out)@);
    }
}

/// The decimal text of `n`, as `n.to_string()` prints it.
pub fn decimal_text(n: u64) -> (res: String)
    ensures
        res@ == decimal_digits(n as nat),
{
    let mut out = String::new();
    push_decimal(&mut out, n);
    proof {
        assert(Seq::<char>::empty() + decimal_digits(n as nat) =~= decimal_digits(n as nat));
    }
    out
}

/// The decimal text of a signed number, as `n.to_string()` prints it.
pub fn signed_decimal_text(n: i64) -> (res: String)
    ensures
        res@ == signed_decimal_digits(n as int),
{
    let mut out = String::new();
    if n < 0 {
        push_char(&mut out, '-');
        let magnitude: u64 = (0i128 - (n as i128)) as u64;
        push_decimal(&mut out, magnitude);
    } else {
        push_decimal(&mut out, n as u64);
    }
    proof {
        assert(Seq::<char>::empty().push('-') =~= seq!['-']);
        assert(Seq::<char>::empty() + decimal_digits((n as int) as nat) =~= decimal_digits((n as int) as nat));
    }
    out
}

proof fn lemma_digit_char(d: int)
    requires
        0 <= d < 10,
    ensures
        is_digit(digit_char(d)),
        digit_value(digit_char(d)) == d,
{
}

proof fn lemma_decimal_digits_shape(n: nat)
    ensures
        decimal_digits(n).len() > 0,
        all_digits(decimal_digits(n)),
        digits_value(decimal_digits(n)) == n,
    decreases n,
{
    if n < 10 {
        lemma_digit_char(n as int);
        let s = decimal_digits(n);
        assert(s.drop_last() =~= Seq::<char>::empty());
        assert(digits_value(s) == digits_value(s.drop_last()) * 10 + digit_value(s.last()));
    } else {
        lemma_decimal_digits_shape(n / 10);
        lemma_digit_char((n % 10) as int);
        let s = decimal_digits(n);
        assert(s.drop_last() =~= decimal_digits(n / 10));
        assert(s.last() == digit_char((n % 10) as int));
        assert(digits_value(s) == digits_value(s.drop_last()) * 10 + digit_value(s.last()));
    }
}

/// Reading back the decimal text of any `u64` gives the same number.
pub proof fn lemma_decimal_round_trip(n: u64)
    ensures
        u64_from_text(decimal_digits(n as nat)) == Some(n),
{
    lemma_decimal_digits_shape(n as nat);
    let s = decimal_digits(n as nat);
    assert(is_digit(s[0]));
}

proof fn lemma_first_digit(n: nat)
    ensures
        n >= 1 ==> decimal_digits(n)[0] != '0',
        decimal_digits(n).len() >= 1,
    decreases n,
{
    if n < 10 {
        lemma_digit_char(n as int);
    } else {
        lemma_first_digit(n / 10);
        assert(decimal_digits(n)[0] == decimal_digits(n / 10)[0]);
    }
}

/// The decimal text of a number is made of ASCII digits only, starts with
/// a non-zero digit unless the number is zero (which prints as `0`), and
/// ends with the digit of the number's last place, the rest being the text
/// of the number divided by ten.
pub proof fn lemma_decimal_text_shape(n: nat)
    ensures
        decimal_digits(n).len() >= 1,
        forall|i: int| 0 <= i < decimal_digits(n).len() ==>
            '0' <= #[trigger] decimal_digits(n)[i] && decimal_digits(n)[i] <= '9',
        n >= 1 ==> decimal_digits(n)[0] != '0',
        n == 0 ==> decimal_digits(n) == seq!['0'],
        n >= 10 ==> decimal_digits(n).drop_last() == decimal_digits(n / 10),
        (decimal_digits(n).last() as int) - ('0' as int) == n % 10,
{
    lemma_decimal_digits_shape(n);
    lemma_first_digit(n);
    let s = decimal_digits(n);
    assert forall|i: int| 0 <= i < s.len() implies '0' <= #[trigger] s[i] && s[i] <= '9' by {
        assert(is_digit(s[i]));
    }
    if n == 0 {
        lemma_digit_char(0);
        assert(digit_value(s[0]) == 0);
        assert(s =~= seq!['0']);
    }
    if n >= 10 {
        assert(s.drop_last() =~= decimal_digits(n / 10));
        lemma_digit_char((n % 10) as int);
    } else {
        lemma_digit_char(n as int);
    }
}

} // verus!
