//! Recognisers for the number notations that a typed hint may carry: the
//! decimal notation of a 32-bit signed integer and that of a floating-point
//! number.

use crate::text::{
    decimal, digit_char, digit_value, is_digit, lemma_decimal_digits, signed_decimal,
};
use vstd::prelude::*;

verus! {

/// Whether `s` holds decimal digits only.
pub open spec fn all_digits(s: Seq<char>) -> bool {
    forall|k: int| 0 <= k < s.len() ==> is_digit(#[trigger] s[k])
}

/// The number that the digits `s` write; leading zeros are allowed.
pub open spec fn digits_value(s: Seq<char>) -> nat
    decreases s.len(),
{
    if s.len() == 0 {
        0
    } else {
        digits_value(s.drop_last()) * 10 + digit_value(s.last())
    }
}

/// Whether `c` is a plus or a minus sign.
pub open spec fn is_sign(c: char) -> bool {
    c == '+' || c == '-'
}

/// `s` without its sign, if it starts with one.
pub open spec fn unsigned_part(s: Seq<char>) -> Seq<char> {
    if s.len() > 0 && is_sign(s[0]) {
        s.skip(1)
    } else {
        s
    }
}

/// The integer that `s` writes, if `s` is an optional sign followed by one
/// or more digits and the number fits in 32 bits.
pub open spec fn int_of_text(s: Seq<char>) -> Option<int> {
    let digits = unsigned_part(s);
    let magnitude = digits_value(digits) as int;
    let number = if s.len() > 0 && s[0] == '-' {
        -magnitude
    } else {
        magnitude
    };
    if digits.len() > 0 && all_digits(digits) && -0x8000_0000 <= number <= 0x7fff_ffff {
        Some(number)
    } else {
        None
    }
}

fn digit(c: char) -> (r: bool)
    ensures
        r == is_digit(c),
{
    c >= '0' && c <= '9'
}

fn value_of_digit(c: char) -> (d: u64)
    requires
        is_digit(c),
    ensures
        d == digit_value(c),
        d <= 9,
{
    if c == '1' {
        1
    } else if c == '2' {
        2
    } else if c == '3' {
        3
    } else if c == '4' {
        4
    } else if c == '5' {
        5
    } else if c == '6' {
        6
    } else if c == '7' {
        7
    } else if c == '8' {
        8
    } else if c == '9' {
        9
    } else {
        0
    }
}

/// Reads `s` as a 32-bit signed integer.
pub fn parse_int(s: &Vec<char>) -> (number: Option<i32>)
    ensures
        number is Some <==> int_of_text(s@) is Some,
        number matches Some(i) ==> int_of_text(s@) == Some(i as int),
{
    let n = s.len();
    let negative = n > 0 && s[0] == '-';
    let start: usize = if n > 0 && (s[0] == '+' || s[0] == '-') {
        1
    } else {
        0
    };
    if start == n {
        return None;
    }
    let ghost digits = unsigned_part(s@);
    let limit: u64 = 0x8000_0001;
    let mut total: u64 = 0;
    let mut i: usize = start;
    while i < n
        invariant
            start <= i <= n,
            n == s.len(),
            digits == s@.skip(start as int),
            digits == unsigned_part(s@),
            limit == 0x8000_0001,
            all_digits(digits.take(i - start)),
            total <= limit,
            total == if digits_value(digits.take(i - start)) < limit {
                digits_value(digits.take(i - start))
            } else {
                limit as nat
            },
        decreases n - i,
    {
        let c = s[i];
        if !digit(c) {
            assert(!is_digit(digits[i - start]));
            return None;
        }
        let d = value_of_digit(c);
        proof {
            let next = digits.take(i - start + 1);
            assert(next.drop_last() == digits.take(i - start));
            assert(next.last() == c);
        }
        total = if total >= limit {
            limit
        } else if total * 10 + d >= limit {
            limit
        } else {
            total * 10 + d
        };
        i += 1;
    }
    assert(digits.take(n - start) == digits);
    if negative {
        if total <= 0x8000_0000 {
            let number: i64 = -(total as i64);
            Some(number as i32)
        } else {
            None
        }
    } else {
        if total <= 0x7fff_ffff {
            Some(total as i32)
        } else {
            None
        }
    }
}

/// The end of the run of digits that starts at `i`.
pub open spec fn digits_end(s: Seq<char>, i: int) -> int
    decreases s.len() - i,
{
    if 0 <= i < s.len() && is_digit(s[i]) {
        digits_end(s, i + 1)
    } else {
        i
    }
}

/// Whether `c` is the letter given in its two cases.
pub open spec fn is_letter(c: char, lower: char, upper: char) -> bool {
    c == lower || c == upper
}

/// Whether `s` is the word `inf`, in any case.
pub open spec fn is_inf(s: Seq<char>) -> bool {
    &&& s.len() == 3
    &&& is_letter(s[0], 'i', 'I')
    &&& is_letter(s[1], 'n', 'N')
    &&& is_letter(s[2], 'f', 'F')
}

/// Whether `s` is the word `infinity`, in any case.
pub open spec fn is_infinity(s: Seq<char>) -> bool {
    &&& s.len() == 8
    &&& is_letter(s[0], 'i', 'I')
    &&& is_letter(s[1], 'n', 'N')
    &&& is_letter(s[2], 'f', 'F')
    &&& is_letter(s[3], 'i', 'I')
    &&& is_letter(s[4], 'n', 'N')
    &&& is_letter(s[5], 'i', 'I')
    &&& is_letter(s[6], 't', 'T')
    &&& is_letter(s[7], 'y', 'Y')
}

/// Whether `s` is the word `nan`, in any case.
pub open spec fn is_nan(s: Seq<char>) -> bool {
    &&& s.len() == 3
    &&& is_letter(s[0], 'n', 'N')
    &&& is_letter(s[1], 'a', 'A')
    &&& is_letter(s[2], 'n', 'N')
}

/// The index behind the mantissa that starts at `i`: digits, a point and
/// digits, with at least one digit before or after the point. `None`
/// where no mantissa starts at `i`.
pub open spec fn mantissa_end(s: Seq<char>, i: int) -> Option<int> {
    let whole = digits_end(s, i);
    if whole < s.len() && s[whole] == '.' {
        let fraction = digits_end(s, whole + 1);
        if whole > i || fraction > whole + 1 {
            Some(fraction)
        } else {
            None
        }
    } else if whole > i {
        Some(whole)
    } else {
        None
    }
}

/// Whether `s[i..]` is an exponent: the letter `e` in either case, an
/// optional sign, and one or more digits up to the end.
pub open spec fn is_exponent(s: Seq<char>, i: int) -> bool {
    let digits = if i + 1 < s.len() && is_sign(s[i + 1]) {
        i + 2
    } else {
        i + 1
    };
    &&& 0 <= i < s.len()
    &&& (s[i] == 'e' || s[i] == 'E')
    &&& digits < s.len()
    &&& digits_end(s, digits) == s.len()
}

/// Whether `s` writes a floating-point number: an optional sign, then
/// `inf`, `infinity` or `nan` in any case, or a mantissa with an optional
/// exponent.
pub open spec fn is_float_text(s: Seq<char>) -> bool {
    let body = unsigned_part(s);
    ||| is_inf(body)
    ||| is_infinity(body)
    ||| is_nan(body)
    ||| (mantissa_end(body, 0) matches Some(end) && (end == body.len() || is_exponent(body, end)))
}

fn letter(c: char, lower: char, upper: char) -> (r: bool)
    ensures
        r == is_letter(c, lower, upper),
{
    c == lower || c == upper
}

fn sign(c: char) -> (r: bool)
    ensures
        r == is_sign(c),
{
    c == '+' || c == '-'
}

fn without_sign(s: &Vec<char>) -> (body: Vec<char>)
    ensures
        body@ == unsigned_part(s@),
{
    let start: usize = if s.len() > 0 && sign(s[0]) {
        1
    } else {
        0
    };
    let mut body: Vec<char> = Vec::new();
    let mut i: usize = start;
    while i < s.len()
        invariant
            start <= i <= s.len(),
            body@ == s@.subrange(start as int, i as int),
        decreases s.len() - i,
    {
        body.push(s[i]);
        i += 1;
    }
    assert(s@.subrange(0, s@.len() as int) == s@);
    body
}

fn scan_digits(s: &Vec<char>, i: usize) -> (end: usize)
    requires
        i <= s.len(),
    ensures
        end == digits_end(s@, i as int),
        i <= end <= s.len(),
{
    let mut j: usize = i;
    while j < s.len() && digit(s[j])
        invariant
            i <= j <= s.len(),
            digits_end(s@, j as int) == digits_end(s@, i as int),
        decreases s.len() - j,
    {
        j += 1;
    }
    j
}

fn special_word(s: &Vec<char>) -> (r: bool)
    ensures
        r == (is_inf(s@) || is_infinity(s@) || is_nan(s@)),
{
    if s.len() == 3 {
        let inf = letter(s[0], 'i', 'I') && letter(s[1], 'n', 'N') && letter(s[2], 'f', 'F');
        let nan = letter(s[0], 'n', 'N') && letter(s[1], 'a', 'A') && letter(s[2], 'n', 'N');
        inf || nan
    } else if s.len() == 8 {
        letter(s[0], 'i', 'I')
            && letter(s[1], 'n', 'N')
            && letter(s[2], 'f', 'F')
            && letter(s[3], 'i', 'I')
            && letter(s[4], 'n', 'N')
            && letter(s[5], 'i', 'I')
            && letter(s[6], 't', 'T')
            && letter(s[7], 'y', 'Y')
    } else {
        false
    }
}

fn scan_mantissa(s: &Vec<char>) -> (end: Option<usize>)
    ensures
        end is Some <==> mantissa_end(s@, 0) is Some,
        end matches Some(e) ==> mantissa_end(s@, 0) == Some(e as int) && e <= s.len(),
{
    let whole = scan_digits(s, 0);
    if whole < s.len() && s[whole] == '.' {
        let fraction = scan_digits(s, whole + 1);
        if whole > 0 || fraction > whole + 1 {
            Some(fraction)
        } else {
            None
        }
    } else if whole > 0 {
        Some(whole)
    } else {
        None
    }
}

fn exponent_at(s: &Vec<char>, i: usize) -> (r: bool)
    requires
        i < s.len(),
    ensures
        r == is_exponent(s@, i as int),
{
    if s[i] != 'e' && s[i] != 'E' {
        return false;
    }
    let digits: usize = if i + 1 < s.len() && sign(s[i + 1]) {
        i + 2
    } else {
        i + 1
    };
    if digits >= s.len() {
        return false;
    }
    scan_digits(s, digits) == s.len()
}

/// Whether `s` writes a floating-point number.
pub fn is_float(s: &Vec<char>) -> (r: bool)
    ensures
        r == is_float_text(s@),
{
    let body = without_sign(s);
    if special_word(&body) {
        return true;
    }
    match scan_mantissa(&body) {
        Some(end) => end == body.len() || exponent_at(&body, end),
        None => false,
    }
}

/// The digits of a decimal notation write the number that it is of.
pub proof fn lemma_decimal_value(n: nat)
    ensures
        all_digits(decimal(n)),
        decimal(n).len() > 0,
        digits_value(decimal(n)) == n,
    decreases n,
{
    lemma_decimal_digits(n);
    if n < 10 {
        assert(decimal(n).drop_last().len() == 0);
        assert(digits_value(decimal(n).drop_last()) == 0);
    } else {
        lemma_decimal_value(n / 10);
        assert(decimal(n).drop_last() == decimal(n / 10));
        assert(decimal(n).last() == digit_char(n % 10));
    }
}

/// Reading the decimal notation of a 32-bit integer gives the integer back.
pub proof fn lemma_int_of_signed_decimal(i: int)
    requires
        -0x8000_0000 <= i <= 0x7fff_ffff,
    ensures
        int_of_text(signed_decimal(i)) == Some(i),
{
    let text = signed_decimal(i);
    if i < 0 {
        let digits = decimal((-i) as nat);
        lemma_decimal_value((-i) as nat);
        assert(text[0] == '-');
        assert(text.skip(1) == digits);
    } else {
        lemma_decimal_value(i as nat);
        assert(is_digit(text[0]));
    }
}

} // verus!
