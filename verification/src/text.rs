//! Small text predicates and the unsigned number grammar of the form fields.

use vstd::prelude::*;
use vstd::string::*;

verus! {

/// The characters that carry the Unicode property `White_Space`.
pub open spec fn is_whitespace(c: char) -> bool {
    let n = c as u32;
    ||| 0x09 <= n <= 0x0D
    ||| n == 0x20
    ||| n == 0x85
    ||| n == 0xA0
    ||| n == 0x1680
    ||| 0x2000 <= n <= 0x200A
    ||| n == 0x2028
    ||| n == 0x2029
    ||| n == 0x202F
    ||| n == 0x205F
    ||| n == 0x3000
}

/// A text is blank when nothing but white space is in it: trimming it leaves
/// the empty text.
pub open spec fn is_blank(s: Seq<char>) -> bool {
    forall|i: int| 0 <= i < s.len() ==> is_whitespace(#[trigger] s[i])
}

pub open spec fn is_digit(c: char) -> bool {
    '0' <= c <= '9'
}

pub open spec fn digit_value(c: char) -> nat {
    (c as u32 - '0' as u32) as nat
}

pub open spec fn all_digits(s: Seq<char>) -> bool {
    forall|i: int| 0 <= i < s.len() ==> is_digit(#[trigger] s[i])
}

/// The number that a sequence of decimal digits writes, most significant
/// digit first.
pub open spec fn digits_value(s: Seq<char>) -> nat
    decreases s.len(),
{
    if s.len() == 0 {
        0
    } else {
        digits_value(s.drop_last()) * 10 + digit_value(s.last())
    }
}

/// The digits of an unsigned number: the text without one leading plus sign.
pub open spec fn unsigned_digits(s: Seq<char>) -> Seq<char> {
    if s.len() > 0 && s[0] == '+' {
        s.subrange(1, s.len() as int)
    } else {
        s
    }
}

/// The value of a text as an unsigned number of at most 255: an optional plus
/// sign, then one or more decimal digits and nothing else. Leading zeros are
/// allowed; white space and a minus sign are not.
pub open spec fn small_number(s: Seq<char>) -> Option<u8> {
    let d = unsigned_digits(s);
    if d.len() > 0 && all_digits(d) && digits_value(d) <= 255 {
        Some(digits_value(d) as u8)
    } else {
        None
    }
}

/// A longer run of digits never writes a smaller number than its prefix.
pub proof fn lemma_digits_value_grows(s: Seq<char>, i: int, j: int)
    requires
        0 <= i <= j <= s.len(),
    ensures
        digits_value(s.subrange(0, i)) <= digits_value(s.subrange(0, j)),
    decreases j - i,
{
    if i < j {
        lemma_digits_value_grows(s, i, j - 1);
        assert(s.subrange(0, j).drop_last() =~= s.subrange(0, j - 1));
    }
}

/// Whether a character is white space.
pub fn char_is_whitespace(c: char) -> (b: bool)
    ensures
        b == is_whitespace(c),
{
    let n: u32 = c as u32;
    (0x09 <= n && n <= 0x0D) || n == 0x20 || n == 0x85 || n == 0xA0 || n == 0x1680 || (0x2000 <= n
        && n <= 0x200A) || n == 0x2028 || n == 0x2029 || n == 0x202F || n == 0x205F || n == 0x3000
}

/// Whether a text holds nothing but white space.
pub fn text_is_blank(s: &str) -> (b: bool)
    ensures
        b == is_blank(s@),
{
    let n: usize = s.unicode_len();
    let mut i: usize = 0;
    while i < n
        invariant
            n == s@.len(),
            i <= n,
            forall|k: int| 0 <= k < i ==> is_whitespace(#[trigger] s@[k]),
        decreases n - i,
    {
        if !char_is_whitespace(s.get_char(i)) {
            return false;
        }
        i += 1;
    }
    true
}

/// Reads an unsigned number of at most 255 from a text.
pub fn parse_small_number(s: &str) -> (r: Option<u8>)
    ensures
        r == small_number(s@),
{
    let n: usize = s.unicode_len();
    let start: usize = if n > 0 && s.get_char(0) == '+' { 1 } else { 0 };
    if start == n {
        return None;
    }
    let ghost d = unsigned_digits(s@);
    let mut acc: u32 = 0;
    let mut i: usize = start;
    while i < n
        invariant
            n == s@.len(),
            start <= i <= n,
            d == unsigned_digits(s@),
            d.len() == n - start,
            forall|k: int| 0 <= k < d.len() ==> d[k] == s@[k + start],
            forall|k: int| 0 <= k < i - start ==> is_digit(#[trigger] d[k]),
            acc == digits_value(d.subrange(0, i - start)),
            acc <= 255,
        decreases n - i,
    {
        let c: char = s.get_char(i);
        if !('0' <= c && c <= '9') {
            assert(!is_digit(d[i - start]));
            return None;
        }
        let v: u32 = c as u32 - '0' as u32;
        proof {
            assert(d.subrange(0, i - start + 1).drop_last() =~= d.subrange(0, i - start));
            assert(d.subrange(0, i - start + 1).last() == c);
        }
        acc = acc * 10 + v;
        if acc > 255 {
            proof {
                lemma_digits_value_grows(d, i - start + 1, d.len() as int);
                assert(d.subrange(0, d.len() as int) =~= d);
            }
            return None;
        }
        i += 1;
    }
    proof {
        assert(d.subrange(0, d.len() as int) =~= d);
    }
    Some(acc as u8)
}

/// One decimal digit, written; a larger value is written as `9`.
pub open spec fn digit_text(d: u8) -> Seq<char> {
    if d == 0 {
        "0"@
    } else if d == 1 {
        "1"@
    } else if d == 2 {
        "2"@
    } else if d == 3 {
        "3"@
    } else if d == 4 {
        "4"@
    } else if d == 5 {
        "5"@
    } else if d == 6 {
        "6"@
    } else if d == 7 {
        "7"@
    } else if d == 8 {
        "8"@
    } else {
        "9"@
    }
}

/// A number of at most 255, written in decimal digits without leading zeros.
pub open spec fn number_text(n: u8) -> Seq<char> {
    if n >= 100 {
        digit_text(n / 100) + digit_text((n / 10) % 10) + digit_text(n % 10)
    } else if n >= 10 {
        digit_text(n / 10) + digit_text(n % 10)
    } else {
        digit_text(n)
    }
}

/// Writes one decimal digit; a larger value is written as `9`.
pub fn digit_to_text(d: u8) -> (s: &'static str)
    ensures
        s@ == digit_text(d),
{
    if d == 0 {
        "0"
    } else if d == 1 {
        "1"
    } else if d == 2 {
        "2"
    } else if d == 3 {
        "3"
    } else if d == 4 {
        "4"
    } else if d == 5 {
        "5"
    } else if d == 6 {
        "6"
    } else if d == 7 {
        "7"
    } else if d == 8 {
        "8"
    } else {
        "9"
    }
}

/// Writes a number of at most 255 in decimal digits.
pub fn number_to_text(n: u8) -> (s: String)
    ensures
        s@ == number_text(n),
{
    if n >= 100 {
        let mut s: String = String::from_str(digit_to_text(n / 100));
        s.append(digit_to_text((n / 10) % 10));
        s.append(digit_to_text(n % 10));
        s
    } else if n >= 10 {
        let mut s: String = String::from_str(digit_to_text(n / 10));
        s.append(digit_to_text(n % 10));
        s
    } else {
        String::from_str(digit_to_text(n))
    }
}

/// A written digit is one character, the digit of its value.
pub proof fn lemma_digit_text(d: u8)
    requires
        d < 10,
    ensures
        digit_text(d).len() == 1,
        is_digit(digit_text(d)[0]),
        digit_value(digit_text(d)[0]) == d,
{
    reveal_strlit("0");
    reveal_strlit("1");
    reveal_strlit("2");
    reveal_strlit("3");
    reveal_strlit("4");
    reveal_strlit("5");
    reveal_strlit("6");
    reveal_strlit("7");
    reveal_strlit("8");
    reveal_strlit("9");
}

/// Reading a written number gives the number back.
pub proof fn lemma_number_text_reads_back(n: u8)
    ensures
        small_number(number_text(n)) == Some(n),
{
    let t = number_text(n);
    lemma_digit_text(n % 10);
    lemma_digit_text((n / 10) % 10);
    lemma_digit_text(if n >= 100 { n / 100 } else { 0 });
    let ones = digit_text(n % 10);
    let tens = digit_text((n / 10) % 10);
    let hundreds = digit_text(n / 100);
    assert(unsigned_digits(t) == t);
    if n >= 100 {
        assert(t.len() == 3);
        assert(t[0] == hundreds[0] && t[1] == tens[0] && t[2] == ones[0]);
        let t2 = t.drop_last();
        let t1 = t2.drop_last();
        assert(t1.drop_last().len() == 0);
        assert(digits_value(t1.drop_last()) == 0);
        assert(t1.last() == t[0] && t2.last() == t[1]);
        assert(digits_value(t1) == n / 100);
        assert(digits_value(t2) == (n / 100) * 10 + (n / 10) % 10);
        assert(digits_value(t) == n);
    } else if n >= 10 {
        assert(t.len() == 2);
        assert(t[0] == tens[0] && t[1] == ones[0]);
        let t1 = t.drop_last();
        assert(t1.drop_last().len() == 0);
        assert(digits_value(t1.drop_last()) == 0);
        assert(t1.last() == t[0]);
        assert(digits_value(t1) == n / 10);
        assert(digits_value(t) == n);
    } else {
        assert(t.len() == 1);
        assert(t.drop_last().len() == 0);
        assert(digits_value(t.drop_last()) == 0);
        assert(t.last() == ones[0]);
        assert(digits_value(t) == n);
    }
}

} // verus!
