//! Decimal text of integers: writing them, and reading them back the way
//! `str::parse::<u64>` does.

use vstd::prelude::*;
use vstd::utf8::encode_utf8;

verus! {

/// The character of decimal digit `d`.
pub open spec fn digit_char(d: nat) -> char {
    if d == 0 { '0' }
    else if d == 1 { '1' }
    else if d == 2 { '2' }
    else if d == 3 { '3' }
    else if d == 4 { '4' }
    else if d == 5 { '5' }
    else if d == 6 { '6' }
    else if d == 7 { '7' }
    else if d == 8 { '8' }
    else { '9' }
}

/// The decimal text of `n`, without leading zeros.
pub open spec fn decimal(n: nat) -> Seq<char>
    decreases n,
{
    if n < 10 {
        seq![digit_char(n)]
    } else {
        decimal(n / 10).push(digit_char(n % 10))
    }
}

/// The decimal text of a signed integer, with a leading '-' when negative.
pub open spec fn signed_decimal(i: int) -> Seq<char> {
    if i < 0 {
        seq!['-'] + decimal((-i) as nat)
    } else {
        decimal(i as nat)
    }
}

fn digit_str(d: u64) -> (r: &'static str)
    requires
        d < 10,
    ensures
        r@ == seq![digit_char(d as nat)],
{
    proof {
        reveal_strlit("0");
        reveal_strlit("1");
        reveal_strlit("2");
        reveal_strlit("3");
        reveal_strlit("4");
        reveal_strlit("5");
        reveal_strlit("6");
        reveal_strlit("7");
        reveal_strlit("8");
        reveal_strlit("9");
    }
    if d == 0 { "0" }
    else if d == 1 { "1" }
    else if d == 2 { "2" }
    else if d == 3 { "3" }
    else if d == 4 { "4" }
    else if d == 5 { "5" }
    else if d == 6 { "6" }
    else if d == 7 { "7" }
    else if d == 8 { "8" }
    else { "9" }
}

/// The decimal text of `n`, as `n.to_string()` writes it.
pub fn u64_to_string(n: u64) -> (r: String)
    ensures
        r@ == decimal(n as nat),
    decreases n,
{
    if n < 10 {
        String::from_str(digit_str(n))
    } else {
        let mut s = u64_to_string(n / 10);
        s.append(digit_str(n % 10));
        s
    }
}

/// The decimal text of `n`, as `n.to_string()` writes it.
pub fn i64_to_string(n: i64) -> (r: String)
    ensures
        r@ == signed_decimal(n as int),
{
    if n < 0 {
        let magnitude: u64 = if n == i64::MIN {
            9223372036854775808u64
        } else {
            (-n) as u64
        };
        let mut s = String::from_str("-");
        proof {
            reveal_strlit("-");
        }
        let digits = u64_to_string(magnitude);
        s.append(digits.as_str());
        s
    } else {
        u64_to_string(n as u64)
    }
}

/// The characters that `str::trim` removes from either end: those with the
/// Unicode property White_Space.
pub open spec fn is_white_space(c: char) -> bool {
    let n = c as u32;
    ||| (9 <= n && n <= 13)
    ||| n == 32
    ||| n == 0x85
    ||| n == 0xa0
    ||| n == 0x1680
    ||| (0x2000 <= n && n <= 0x200a)
    ||| n == 0x2028
    ||| n == 0x2029
    ||| n == 0x202f
    ||| n == 0x205f
    ||| n == 0x3000
}

fn white_space(c: char) -> (r: bool)
    ensures
        r == is_white_space(c),
{
    let n = c as u32;
    (9 <= n && n <= 13) || n == 32 || n == 0x85 || n == 0xa0 || n == 0x1680 || (0x2000 <= n && n
        <= 0x200a) || n == 0x2028 || n == 0x2029 || n == 0x202f || n == 0x205f || n == 0x3000
}

pub open spec fn is_digit(b: u8) -> bool {
    48 <= b <= 57
}

/// The number that a string of decimal digits denotes.
pub open spec fn digits_value(s: Seq<u8>) -> nat
    decreases s.len(),
{
    if s.len() == 0 {
        0
    } else {
        digits_value(s.drop_last()) * 10 + (s.last() - 48) as nat
    }
}

/// The text after an optional leading '+'.
pub open spec fn unsigned_part(s: Seq<u8>) -> Seq<u8> {
    if s.len() > 0 && s[0] == 43 {
        s.drop_first()
    } else {
        s
    }
}

/// Every byte is a decimal digit.
pub open spec fn all_digits(s: Seq<u8>) -> bool {
    forall|i: int| 0 <= i < s.len() ==> is_digit(#[trigger] s[i])
}

/// What `str::parse::<u64>` gives for text `s`: an optional '+', then at least
/// one decimal digit and nothing else, denoting a number that fits in 64 bits.
pub open spec fn parse_u64_spec(s: Seq<u8>) -> Option<u64> {
    let digits = unsigned_part(s);
    if digits.len() == 0 || !all_digits(digits) {
        None
    } else if digits_value(digits) > u64::MAX {
        None
    } else {
        Some(digits_value(digits) as u64)
    }
}

/// Text with its leading and trailing white space removed, as `str::trim`
/// does.
pub open spec fn trim_spec(s: Seq<char>) -> Seq<char>
    decreases s.len(),
{
    if s.len() > 0 && is_white_space(s[0]) {
        trim_spec(s.drop_first())
    } else if s.len() > 0 && is_white_space(s.last()) {
        trim_spec(s.drop_last())
    } else {
        s
    }
}

proof fn lemma_digits_value_grows(s: Seq<u8>, i: int)
    requires
        0 <= i <= s.len(),
        forall|j: int| 0 <= j < s.len() ==> is_digit(#[trigger] s[j]),
    ensures
        digits_value(s.take(i)) <= digits_value(s),
    decreases s.len() - i,
{
    if i < s.len() {
        lemma_digits_value_grows(s, i + 1);
        assert(s.take(i + 1).drop_last() == s.take(i));
    } else {
        assert(s.take(i) == s);
    }
}

/// Read decimal text as `str::parse::<u64>` does.
pub fn parse_u64(s: &[u8]) -> (r: Option<u64>)
    ensures
        r == parse_u64_spec(s@),
{
    let ghost text = s@;
    let mut start: usize = 0;
    if s.len() > 0 && s[0] == 43 {
        start = 1;
    }
    let ghost digits = unsigned_part(text);
    assert(digits == text.subrange(start as int, text.len() as int));
    if start == s.len() {
        return None;
    }
    let mut i: usize = start;
    while i < s.len()
        invariant
            start <= i <= s@.len(),
            s@ == text,
            digits == text.subrange(start as int, text.len() as int),
            digits == unsigned_part(text),
            digits.len() > 0,
            forall|j: int| start <= j < i ==> is_digit(#[trigger] text[j]),
        decreases s@.len() - i,
    {
        if s[i] < 48 || s[i] > 57 {
            assert(digits[i - start] == text[i as int]);
            assert(!is_digit(digits[i - start]));
            assert(0 <= i - start < digits.len());
            assert(!all_digits(digits));
            assert(parse_u64_spec(text) is None);
            return None;
        }
        i += 1;
    }
    assert(forall|j: int| 0 <= j < digits.len() ==> is_digit(#[trigger] digits[j])) by {
        assert forall|j: int| 0 <= j < digits.len() implies is_digit(#[trigger] digits[j]) by {
            assert(digits[j] == text[start + j]);
        }
    }
    let mut value: u64 = 0;
    let mut k: usize = start;
    while k < s.len()
        invariant
            start <= k <= s@.len(),
            s@ == text,
            digits == text.subrange(start as int, text.len() as int),
            digits == unsigned_part(text),
            digits.len() > 0,
            forall|j: int| 0 <= j < digits.len() ==> is_digit(#[trigger] digits[j]),
            value as nat == digits_value(digits.take(k - start)),
        decreases s@.len() - k,
    {
        assert(digits[k - start] == s@[k as int]);
        assert(is_digit(digits[k - start]));
        let d = s[k] - 48;
        assert(digits.take(k - start + 1).drop_last() == digits.take(k - start));
        assert(digits.take(k - start + 1).last() == s@[k as int]);
        assert(digits_value(digits.take(k - start + 1)) == value * 10 + d);
        if value > 1844674407370955161u64 || (value == 1844674407370955161u64 && d > 5) {
            proof {
                lemma_digits_value_grows(digits, k - start + 1);
            }
            return None;
        }
        value = value * 10 + d as u64;
        k += 1;
    }
    assert(digits.take(k - start) == digits);
    Some(value)
}

/// Read the decimal text of a number, with white space around it, as
/// `text.trim().parse::<u64>()` does.
pub fn parse_trimmed_u64(text: &str) -> (r: Option<u64>)
    ensures
        r == parse_u64_spec(encode_utf8(trim_spec(text@))),
{
    let mut lo: usize = 0;
    let mut hi: usize = text.unicode_len();
    assert(text@.subrange(0, text@.len() as int) == text@);
    while lo < hi && white_space(text.get_char(lo))
        invariant
            lo <= hi == text@.len(),
            trim_spec(text@) == trim_spec(text@.subrange(lo as int, hi as int)),
        decreases hi - lo,
    {
        assert(text@.subrange(lo as int, hi as int).drop_first() == text@.subrange(lo + 1, hi as int));
        lo += 1;
    }
    while lo < hi && white_space(text.get_char(hi - 1))
        invariant
            lo <= hi <= text@.len(),
            lo == hi || !is_white_space(text@[lo as int]),
            trim_spec(text@) == trim_spec(text@.subrange(lo as int, hi as int)),
        decreases hi - lo,
    {
        assert(text@.subrange(lo as int, hi as int).drop_last() == text@.subrange(lo as int, hi - 1));
        hi -= 1;
    }
    let ghost t = text@.subrange(lo as int, hi as int);
    assert(trim_spec(t) == t);
    let inner = text.substring_char(lo, hi);
    parse_u64(inner.as_bytes())
}

/// The text after an optional leading sign.
pub open spec fn signed_part(s: Seq<u8>) -> Seq<u8> {
    if s.len() > 0 && (s[0] == 43 || s[0] == 45) {
        s.drop_first()
    } else {
        s
    }
}

/// What `str::parse::<i32>` gives for text `s`: an optional sign, then at
/// least one decimal digit and nothing else, denoting a number in the range of
/// `i32`.
pub open spec fn parse_i32_spec(s: Seq<u8>) -> Option<i32> {
    let negative = s.len() > 0 && s[0] == 45;
    let digits = signed_part(s);
    if digits.len() == 0 || !all_digits(digits) {
        None
    } else {
        let value: int = if negative { -(digits_value(digits) as int) } else { digits_value(digits) as int };
        if value < i32::MIN || value > i32::MAX {
            None
        } else {
            Some(value as i32)
        }
    }
}

/// Read decimal text as `str::parse::<i32>` does.
pub fn parse_i32(s: &[u8]) -> (r: Option<i32>)
    ensures
        r == parse_i32_spec(s@),
{
    let ghost text = s@;
    let negative = s.len() > 0 && s[0] == 45;
    let mut start: usize = 0;
    if s.len() > 0 && (s[0] == 43 || s[0] == 45) {
        start = 1;
    }
    let ghost digits = signed_part(text);
    assert(digits == text.subrange(start as int, text.len() as int));
    if start == s.len() {
        return None;
    }
    let mut i: usize = start;
    while i < s.len()
        invariant
            start <= i <= s@.len(),
            s@ == text,
            digits == text.subrange(start as int, text.len() as int),
            forall|j: int| start <= j < i ==> is_digit(#[trigger] text[j]),
            digits == signed_part(text),
            digits.len() > 0,
        decreases s@.len() - i,
    {
        if s[i] < 48 || s[i] > 57 {
            assert(digits[i - start] == text[i as int]);
            assert(!is_digit(digits[i - start]));
            assert(!all_digits(digits));
            return None;
        }
        i += 1;
    }
    assert(all_digits(digits)) by {
        assert forall|j: int| 0 <= j < digits.len() implies is_digit(#[trigger] digits[j]) by {
            assert(digits[j] == text[start + j]);
        }
    }
    // magnitudes up to 2^31 are representable; more is out of range either way
    let mut value: u64 = 0;
    let mut k: usize = start;
    while k < s.len()
        invariant
            start <= k <= s@.len(),
            s@ == text,
            digits == text.subrange(start as int, text.len() as int),
            all_digits(digits),
            value as nat == digits_value(digits.take(k - start)),
            value <= 2147483648,
            digits == signed_part(text),
            digits.len() > 0,
            negative == (text.len() > 0 && text[0] == 45),
        decreases s@.len() - k,
    {
        assert(digits[k - start] == s@[k as int]);
        assert(is_digit(digits[k - start]));
        let d = s[k] - 48;
        assert(digits.take(k - start + 1).drop_last() == digits.take(k - start));
        assert(digits.take(k - start + 1).last() == s@[k as int]);
        assert(digits_value(digits.take(k - start + 1)) == value * 10 + d);
        if value * 10 + d as u64 > 2147483648 {
            proof {
                lemma_digits_value_grows(digits, k - start + 1);
            }
            return None;
        }
        value = value * 10 + d as u64;
        k += 1;
    }
    assert(digits.take(k - start) == digits);
    if negative {
        Some((0 - (value as i64)) as i32)
    } else if value > 2147483647 {
        None
    } else {
        Some(value as i32)
    }
}

} // verus!
