//! Small verified helpers on strings: equality, decimal numbers, building text.

use vstd::prelude::*;
use vstd::string::*;
use vstd::utf8::*;

verus! {

/// Two character sequences are equal exactly when their UTF-8 encodings are.
pub proof fn lemma_encoding_injective(a: Seq<char>, b: Seq<char>)
    ensures
        (encode_utf8(a) == encode_utf8(b)) <==> (a == b),
{
    encode_utf8_decode_utf8(a);
    encode_utf8_decode_utf8(b);
}

/// Texts of different lengths differ.
pub proof fn lemma_differ_by_length(a: Seq<char>, b: Seq<char>)
    ensures
        a.len() != b.len() ==> a != b,
{
}

/// Compares two string slices character by character.
pub fn str_eq(a: &str, b: &str) -> (r: bool)
    ensures
        r == (a@ == b@),
{
    let x = a.as_bytes();
    let y = b.as_bytes();
    proof {
        lemma_encoding_injective(a@, b@);
    }
    if x.len() != y.len() {
        return false;
    }
    let mut i: usize = 0;
    while i < x.len()
        invariant
            x.len() == y.len(),
            x@ == encode_utf8(a@),
            y@ == encode_utf8(b@),
            (encode_utf8(a@) == encode_utf8(b@)) <==> (a@ == b@),
            0 <= i <= x.len(),
            forall|j: int| 0 <= j < i ==> x@[j] == y@[j],
        decreases x.len() - i,
    {
        if x[i] != y[i] {
            return false;
        }
        i += 1;
    }
    assert(x@ =~= y@);
    true
}

/// The text of an optional string.
pub open spec fn opt_text(s: Option<String>) -> Option<Seq<char>> {
    match s {
        Some(t) => Some(t@),
        None => None,
    }
}

/// The text, or the empty text where there is none.
pub open spec fn text_or_empty(s: Option<Seq<char>>) -> Seq<char> {
    match s {
        Some(t) => t,
        None => Seq::empty(),
    }
}

/// A copy of the string, or the empty string where there is none.
pub fn copy_or_empty(s: Option<&String>) -> (r: String)
    ensures
        r@ == text_or_empty(
            match s {
                Some(t) => Some(t@),
                None => None,
            },
        ),
{
    match s {
        Some(t) => t.clone(),
        None => String::new(),
    }
}

/// A copy of an optional string.
pub fn copy_opt_text(s: &Option<String>) -> (r: Option<String>)
    ensures
        opt_text(r) == opt_text(*s),
{
    match s {
        Some(t) => Some(t.clone()),
        None => None,
    }
}

/// The characters of a string slice, in order.
pub fn chars_of(s: &str) -> (r: Vec<char>)
    ensures
        r@ == s@,
{
    let mut out: Vec<char> = Vec::new();
    if s.is_ascii() {
        let bytes = s.as_bytes();
        proof {
            is_ascii_spec_bytes(s);
        }
        let mut i: usize = 0;
        while i < bytes.len()
            invariant
                is_ascii_chars(s@),
                bytes@ == Seq::new(s@.len(), |k: int| s@[k] as u8),
                0 <= i <= bytes.len(),
                out@ == s@.take(i as int),
            decreases bytes.len() - i,
        {
            let b = bytes[i];
            let c = b as char;
            assert(c == s@[i as int]);
            out.push(c);
            assert(out@ =~= s@.take(i + 1));
            i += 1;
        }
        assert(s@.take(i as int) =~= s@);
    } else {
        let n = s.unicode_len();
        let mut i: usize = 0;
        while i < n
            invariant
                n == s@.len(),
                0 <= i <= n,
                out@ == s@.take(i as int),
            decreases n - i,
        {
            let c = s.get_char(i);
            out.push(c);
            assert(out@ =~= s@.take(i + 1));
            i += 1;
        }
        assert(s@.take(i as int) =~= s@);
    }
    out
}

/// Collects characters into a `String` with the standard library's
/// `FromIterator<char>` for `String`: the string holds the characters in order.
#[verifier::external_body]
pub(crate) fn string_from_chars(chars: &Vec<char>) -> (r: String)
    ensures
        r@ == chars@,
{
    chars.iter().collect()
}

/// Whether `c` is one of the ten decimal digits.
pub open spec fn is_digit(c: char) -> bool {
    '0' <= c <= '9'
}

/// The number that a decimal digit stands for.
pub open spec fn digit_value(c: char) -> nat {
    (c as nat - '0' as nat) as nat
}

/// Whether every character of `s` is a decimal digit.
pub open spec fn all_digits(s: Seq<char>) -> bool {
    forall|i: int| 0 <= i < s.len() ==> is_digit(#[trigger] s[i])
}

/// The number written by the digit sequence `s`, most significant digit first.
pub open spec fn digits_value(s: Seq<char>) -> nat
    decreases s.len(),
{
    if s.len() == 0 {
        0
    } else {
        digits_value(s.drop_last()) * 10 + digit_value(s.last())
    }
}

/// The digits of a decimal number text: the text without one leading plus sign.
pub open spec fn unsigned_digits(s: Seq<char>) -> Seq<char> {
    if s.len() > 0 && s[0] == '+' {
        s.subrange(1, s.len() as int)
    } else {
        s
    }
}

/// The value of `s` read as an unsigned 32-bit decimal number: one optional
/// leading `+`, then at least one digit and nothing else, the number within
/// range. `None` for every other text.
pub open spec fn decimal_u32(s: Seq<char>) -> Option<u32> {
    let d = unsigned_digits(s);
    if d.len() > 0 && all_digits(d) && digits_value(d) <= u32::MAX {
        Some(digits_value(d) as u32)
    } else {
        None
    }
}

/// A longer digit sequence never writes a smaller number than its prefix.
pub proof fn lemma_digits_value_monotonic(s: Seq<char>, i: int)
    requires
        0 <= i <= s.len(),
    ensures
        digits_value(s.take(i)) <= digits_value(s),
    decreases s.len() - i,
{
    if i == s.len() {
        assert(s.take(i) =~= s);
    } else {
        lemma_digits_value_monotonic(s, i + 1);
        assert(s.take(i + 1).drop_last() =~= s.take(i));
    }
}

/// Reads an unsigned 32-bit decimal number.
pub fn parse_u32(s: &str) -> (r: Option<u32>)
    ensures
        r == decimal_u32(s@),
{
    let chars = chars_of(s);
    let n = chars.len();
    let start: usize = if n > 0 && chars[0] == '+' { 1 } else { 0 };
    let ghost d = unsigned_digits(s@);
    assert(d =~= s@.subrange(start as int, n as int));
    if start == n {
        return None;
    }
    let mut v: u32 = 0;
    let mut i: usize = start;
    while i < n
        invariant
            chars@ == s@,
            n == chars.len(),
            d == s@.subrange(start as int, n as int),
            d == unsigned_digits(s@),
            start <= i <= n,
            all_digits(d.take(i - start)),
            v == digits_value(d.take(i - start)),
        decreases n - i,
    {
        let c = chars[i];
        assert(c == d[i - start]);
        if c < '0' || c > '9' {
            assert(!is_digit(d[i - start]));
            return None;
        }
        let dv: u32 = c as u32 - '0' as u32;
        assert(d.take(i - start + 1).drop_last() =~= d.take(i - start));
        assert(digits_value(d.take(i - start + 1)) == v * 10 + dv);
        if v > (u32::MAX - dv) / 10 {
            proof {
                lemma_digits_value_monotonic(d, i - start + 1);
            }
            return None;
        }
        v = v * 10 + dv;
        i += 1;
    }
    assert(d.take(n - start) =~= d);
    Some(v)
}

/// The lower case form of a capital letter of the alphabet; every other
/// character as it is.
pub open spec fn lower(c: char) -> char {
    if 'A' <= c <= 'Z' {
        ((c as u8) + 32) as char
    } else {
        c
    }
}

/// The text with its capital letters in lower case.
pub open spec fn lowered(s: Seq<char>) -> Seq<char> {
    s.map_values(|c: char| lower(c))
}

/// The number of digits that follow one another in `s` from position `i`
/// on.
pub open spec fn digits_from(s: Seq<char>, i: int) -> int
    decreases s.len() - i,
{
    if 0 <= i < s.len() && is_digit(s[i]) {
        1 + digits_from(s, i + 1)
    } else {
        0
    }
}

/// Whether the rest of `s` from position `i` on is an exponent: the letter
/// `e` in either case, an optional sign, and at least one digit up to the
/// end.
pub open spec fn is_float_exponent(s: Seq<char>, i: int) -> bool {
    &&& 0 <= i < s.len()
    &&& (s[i] == 'e' || s[i] == 'E')
    &&& {
        let j = if i + 1 < s.len() && (s[i + 1] == '+' || s[i + 1] == '-') {
            i + 2
        } else {
            i + 1
        };
        digits_from(s, j) > 0 && j + digits_from(s, j) == s.len()
    }
}

/// Whether `s` is a decimal number without a sign: digits with an optional
/// point among them, before it or behind it, at least one digit in all, and
/// an optional exponent.
pub open spec fn is_float_number(s: Seq<char>) -> bool {
    let a = digits_from(s, 0);
    let dot = a < s.len() && s[a] == '.';
    let b = if dot {
        digits_from(s, a + 1)
    } else {
        0
    };
    let end = if dot {
        a + 1 + b
    } else {
        a
    };
    a + b > 0 && (end == s.len() || is_float_exponent(s, end))
}

/// The text without one leading sign.
pub open spec fn unsigned_text(s: Seq<char>) -> Seq<char> {
    if s.len() > 0 && (s[0] == '+' || s[0] == '-') {
        s.subrange(1, s.len() as int)
    } else {
        s
    }
}

/// Whether `s` writes a floating point number: an optional sign, then a
/// decimal number or one of the words `inf`, `infinity` and `nan` in any
/// mix of cases. Nothing may stand before or behind it.
pub open spec fn is_float_text(s: Seq<char>) -> bool {
    let t = unsigned_text(s);
    lowered(t) == "inf"@ || lowered(t) == "infinity"@ || lowered(t) == "nan"@ || is_float_number(
        t,
    )
}

/// Counts the digits that follow one another from position `i` on.
fn count_digits(chars: &Vec<char>, i: usize) -> (n: usize)
    requires
        i <= chars@.len(),
    ensures
        n == digits_from(chars@, i as int),
        i + n <= chars@.len(),
{
    let mut k = i;
    while k < chars.len() && '0' <= chars[k] && chars[k] <= '9'
        invariant
            i <= k <= chars@.len(),
            digits_from(chars@, i as int) == (k - i) + digits_from(chars@, k as int),
        decreases chars@.len() - k,
    {
        k += 1;
    }
    k - i
}

/// Whether the text writes a floating point number.
pub fn is_float(text: &str) -> (r: bool)
    ensures
        r == is_float_text(text@),
{
    let all = chars_of(text);
    let start: usize = if all.len() > 0 && (all[0] == '+' || all[0] == '-') {
        1
    } else {
        0
    };
    let mut chars: Vec<char> = Vec::new();
    let mut low: Vec<char> = Vec::new();
    let mut i: usize = start;
    let ghost t = unsigned_text(text@);
    assert(t =~= text@.subrange(start as int, all@.len() as int));
    while i < all.len()
        invariant
            all@ == text@,
            t == text@.subrange(start as int, all@.len() as int),
            start <= i <= all@.len(),
            chars@ == t.take(i - start),
            low@ == lowered(t).take(i - start),
        decreases all@.len() - i,
    {
        let c = all[i];
        let l = if 'A' <= c && c <= 'Z' {
            ((c as u8) + 32) as char
        } else {
            c
        };
        chars.push(c);
        low.push(l);
        assert(chars@ =~= t.take(i - start + 1));
        assert(low@ =~= lowered(t).take(i - start + 1));
        i += 1;
    }
    assert(chars@ =~= t);
    assert(low@ =~= lowered(t));
    let word = string_from_chars(&low);
    if str_eq(word.as_str(), "inf") || str_eq(word.as_str(), "infinity") || str_eq(
        word.as_str(),
        "nan",
    ) {
        return true;
    }
    let n = chars.len();
    let a = count_digits(&chars, 0);
    let dot = a < n && chars[a] == '.';
    let b = if dot {
        count_digits(&chars, a + 1)
    } else {
        0
    };
    let end = if dot {
        a + 1 + b
    } else {
        a
    };
    if a + b == 0 {
        return false;
    }
    if end == n {
        return true;
    }
    if chars[end] != 'e' && chars[end] != 'E' {
        return false;
    }
    let j = if end + 1 < n && (chars[end + 1] == '+' || chars[end + 1] == '-') {
        end + 2
    } else {
        end + 1
    };
    let m = count_digits(&chars, j);
    m > 0 && j + m == n
}

} // verus!
