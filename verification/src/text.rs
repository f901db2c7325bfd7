//! Small operations on text that the components share.

use vstd::prelude::*;
use vstd::string::*;
use vstd::utf8::*;

verus! {

/// The view of an optional text.
pub open spec fn text_view(s: Option<&str>) -> Option<Seq<char>> {
    match s {
        Some(s) => Some(s@),
        None => None,
    }
}

/// The view of an optional byte vector.
pub open spec fn bytes_view(r: Option<Vec<u8>>) -> Option<Seq<u8>> {
    match r {
        Some(v) => Some(v@),
        None => None,
    }
}

/// A character with the Unicode property `White_Space`.
pub open spec fn is_whitespace(c: char) -> bool {
    let code = c as u32;
    (0x09 <= code <= 0x0d) || code == 0x20 || code == 0x85 || code == 0xa0 || code == 0x1680 || (0x2000 <= code
        <= 0x200a) || code == 0x2028 || code == 0x2029 || code == 0x202f || code == 0x205f || code == 0x3000
}

/// Whether a character is one of those that are stripped: whitespace where
/// none is named, and the named character where one is.
pub open spec fn is_stripped(what: Option<char>, c: char) -> bool {
    match what {
        Some(named) => c == named,
        None => is_whitespace(c),
    }
}

/// The text without its leading stripped characters.
pub open spec fn without_leading(s: Seq<char>, what: Option<char>) -> Seq<char>
    decreases s.len(),
{
    if s.len() > 0 && is_stripped(what, s.first()) {
        without_leading(s.drop_first(), what)
    } else {
        s
    }
}

/// The text without its trailing stripped characters.
pub open spec fn without_trailing(s: Seq<char>, what: Option<char>) -> Seq<char>
    decreases s.len(),
{
    if s.len() > 0 && is_stripped(what, s.last()) {
        without_trailing(s.drop_last(), what)
    } else {
        s
    }
}

/// The text without its leading and trailing whitespace.
pub open spec fn trimmed(s: Seq<char>) -> Seq<char> {
    without_trailing(without_leading(s, None), None)
}

/// The text without the leading and trailing occurrences of one character.
pub open spec fn stripped_of(s: Seq<char>, c: char) -> Seq<char> {
    without_trailing(without_leading(s, Some(c)), Some(c))
}

/// What is left without the leading stripped characters begins at the first
/// character that is not stripped.
proof fn lemma_without_leading(s: Seq<char>, what: Option<char>, i: int)
    requires
        0 <= i <= s.len(),
        forall|j: int| 0 <= j < i ==> is_stripped(what, #[trigger] s[j]),
        i == s.len() || !is_stripped(what, s[i]),
    ensures
        without_leading(s, what) == s.skip(i),
    decreases i,
{
    if i > 0 {
        let rest = s.drop_first();
        assert(is_stripped(what, s[0]));
        assert forall|j: int| 0 <= j < i - 1 implies is_stripped(what, #[trigger] rest[j]) by {
            assert(rest[j] == s[j + 1]);
        }
        if i < s.len() {
            assert(rest[i - 1] == s[i]);
        }
        lemma_without_leading(rest, what, i - 1);
        assert(rest.skip(i - 1) =~= s.skip(i));
    } else {
        assert(s.skip(0) =~= s);
    }
}

/// What is left without the trailing stripped characters ends after the
/// last character that is not stripped.
proof fn lemma_without_trailing(s: Seq<char>, what: Option<char>, n: int)
    requires
        0 <= n <= s.len(),
        forall|j: int| n <= j < s.len() ==> is_stripped(what, #[trigger] s[j]),
        n == 0 || !is_stripped(what, s[n - 1]),
    ensures
        without_trailing(s, what) == s.take(n),
    decreases s.len() - n,
{
    if n < s.len() {
        let rest = s.drop_last();
        assert(is_stripped(what, s[s.len() - 1]));
        assert forall|j: int| n <= j < rest.len() implies is_stripped(what, #[trigger] rest[j]) by {
            assert(rest[j] == s[j]);
        }
        if n > 0 {
            assert(rest[n - 1] == s[n - 1]);
        }
        lemma_without_trailing(rest, what, n);
        assert(rest.take(n) =~= s.take(n));
    } else {
        assert(s.take(n) =~= s);
    }
}

/// Whether a character is whitespace.
fn is_whitespace_char(c: char) -> (r: bool)
    ensures
        r == is_whitespace(c),
{
    let code = c as u32;
    (0x09 <= code && code <= 0x0d) || code == 0x20 || code == 0x85 || code == 0xa0 || code == 0x1680 || (0x2000
        <= code && code <= 0x200a) || code == 0x2028 || code == 0x2029 || code == 0x202f || code == 0x205f || code
        == 0x3000
}

/// Whether a character is one of those that are stripped.
fn strips(what: Option<char>, c: char) -> (r: bool)
    ensures
        r == is_stripped(what, c),
{
    match what {
        Some(named) => c == named,
        None => is_whitespace_char(c),
    }
}

/// Strips leading and trailing characters from a text.
fn strip(s: &str, what: Option<char>) -> (r: &str)
    ensures
        r@ == without_trailing(without_leading(s@, what), what),
{
    let chars = chars_of(s);
    let mut from: usize = 0;
    while from < chars.len() && strips(what, chars[from])
        invariant
            0 <= from <= chars@.len(),
            forall|j: int| 0 <= j < from ==> is_stripped(what, #[trigger] chars@[j]),
        decreases chars@.len() - from,
    {
        from += 1;
    }
    let mut to: usize = chars.len();
    while to > from && strips(what, chars[to - 1])
        invariant
            from <= to <= chars@.len(),
            forall|j: int| to <= j < chars@.len() ==> is_stripped(what, #[trigger] chars@[j]),
        decreases to,
    {
        to -= 1;
    }
    proof {
        lemma_without_leading(chars@, what, from as int);
        let rest = chars@.skip(from as int);
        assert forall|j: int| to - from <= j < rest.len() implies is_stripped(what, #[trigger] rest[j]) by {
            assert(rest[j] == chars@[from + j]);
        }
        if to > from {
            assert(rest[to - from - 1] == chars@[to - 1]);
        }
        lemma_without_trailing(rest, what, to - from);
        assert(rest.take(to - from) =~= chars@.subrange(from as int, to as int));
    }
    s.substring_char(from, to)
}

/// The text without its leading and trailing whitespace.
pub fn trim(s: &str) -> (r: &str)
    ensures
        r@ == trimmed(s@),
{
    strip(s, None)
}

/// The text without the leading and trailing occurrences of one character.
pub fn trim_char(s: &str, c: char) -> (r: &str)
    ensures
        r@ == stripped_of(s@, c),
{
    strip(s, Some(c))
}

/// The rest of the text where it begins with the prefix, nothing where it
/// does not.
pub fn strip_prefix<'a>(s: &'a str, prefix: &str) -> (r: Option<&'a str>)
    ensures
        match r {
            Some(rest) => s@ == prefix@ + rest@,
            None => !prefix@.is_prefix_of(s@),
        },
{
    let chars = chars_of(s);
    let start = chars_of(prefix);
    if start.len() > chars.len() {
        return None;
    }
    let mut i: usize = 0;
    while i < start.len()
        invariant
            0 <= i <= start@.len() <= chars@.len(),
            chars@ == s@,
            start@ == prefix@,
            forall|j: int| 0 <= j < i ==> chars@[j] == start@[j],
        decreases start@.len() - i,
    {
        if chars[i] != start[i] {
            assert(chars@.subrange(0, start@.len() as int)[i as int] == chars@[i as int]);
            return None;
        }
        i += 1;
    }
    let rest = s.substring_char(start.len(), chars.len());
    assert(s@ =~= prefix@ + rest@);
    Some(rest)
}

/// Whether two texts are the same.
pub fn same_text(a: &str, b: &str) -> (r: bool)
    ensures
        r == (a@ == b@),
{
    a.to_owned() == b.to_owned()
}

/// The characters of a text.
pub fn chars_of(s: &str) -> (r: Vec<char>)
    ensures
        r@ == s@,
{
    broadcast use vstd::string::group_string_axioms;

    let mut chars: Vec<char> = Vec::new();
    for c in it: s.chars()
        invariant
            it.seq() == s@,
            chars@ == it.seq().take(it.index() as int),
    {
        proof {
            assert(it.seq().take(it.index() + 1) =~= it.seq().take(it.index() as int).push(c));
        }
        chars.push(c);
    }
    proof {
        assert(s@.take(s@.len() as int) =~= s@);
    }
    chars
}

/// A decimal digit.
pub open spec fn is_digit(c: char) -> bool {
    '0' <= c <= '9'
}

/// The number that a run of decimal digits writes.
pub open spec fn digits_value(s: Seq<char>) -> nat
    decreases s.len(),
{
    if s.len() == 0 {
        0
    } else {
        digits_value(s.drop_last()) * 10 + (s.last() as nat - 0x30) as nat
    }
}

/// The number that a text writes, where it is one or more decimal digits and
/// nothing else.
pub open spec fn decimal(s: Seq<char>) -> Option<nat> {
    if s.len() > 0 && (forall|i: int| 0 <= i < s.len() ==> is_digit(#[trigger] s[i])) {
        Some(digits_value(s))
    } else {
        None
    }
}

/// The number that a text writes, where it writes one that fits.
pub open spec fn decimal_usize(s: Seq<char>) -> Option<usize> {
    match decimal(s) {
        Some(value) => if value <= usize::MAX {
            Some(value as usize)
        } else {
            None
        },
        None => None,
    }
}

/// More digits write no smaller number.
proof fn lemma_digits_grow(s: Seq<char>, i: int)
    requires
        0 <= i <= s.len(),
    ensures
        digits_value(s.take(i)) <= digits_value(s),
    decreases s.len() - i,
{
    if i < s.len() {
        lemma_digits_grow(s, i + 1);
        assert(s.take(i + 1).drop_last() =~= s.take(i));
    } else {
        assert(s.take(i) =~= s);
    }
}

/// Reads a number written in decimal digits.
pub fn parse_decimal(text: &str) -> (r: Option<usize>)
    ensures
        r == decimal_usize(text@),
{
    broadcast use is_ascii_spec_bytes, is_ascii_chars_nat_bound;

    let ghost s = text@;
    if !text.is_ascii() {
        proof {
            if decimal(s) is Some {
                assert forall|i: int| 0 <= i < s.len() implies '\0' <= #[trigger] s[i] <= '\u{7f}' by {
                    assert(is_digit(s[i]));
                }
            }
        }
        return None;
    }
    let bytes = text.as_bytes();
    if bytes.len() == 0 {
        return None;
    }
    let mut value: usize = 0;
    let mut i: usize = 0;
    assert(s.take(0) =~= Seq::<char>::empty());
    while i < bytes.len()
        invariant
            0 <= i <= bytes@.len(),
            s == text@,
            text.is_ascii(),
            bytes@ == text.spec_bytes(),
            bytes@.len() == s.len(),
            forall|j: int| 0 <= j < s.len() ==> bytes@[j] == #[trigger] s[j] as u8,
            forall|j: int| 0 <= j < s.len() ==> (#[trigger] s[j] as nat) < 128,
            forall|j: int| 0 <= j < i ==> is_digit(#[trigger] s[j]),
            value == digits_value(s.take(i as int)),
        decreases bytes@.len() - i,
    {
        let b = bytes[i];
        proof {
            assert((s[i as int] as nat) < 128);
            assert(bytes@[i as int] == s[i as int] as u8);
            assert(s.take(i + 1).drop_last() =~= s.take(i as int));
            assert(s.take(i + 1).last() == s[i as int]);
            lemma_digits_grow(s, i + 1);
        }
        if b < 0x30 || b > 0x39 {
            assert(!is_digit(s[i as int]));
            return None;
        }
        let digit = (b - 0x30) as usize;
        let next = match value.checked_mul(10) {
            Some(tens) => tens.checked_add(digit),
            None => None,
        };
        match next {
            Some(next) => {
                value = next;
            },
            None => {
                return None;
            },
        }
        i += 1;
    }
    assert(s.take(s.len() as int) =~= s);
    Some(value)
}

/// The number that a text writes in decimal digits, with or without a plus
/// sign before them, where it fits.
pub open spec fn unsigned_usize(s: Seq<char>) -> Option<usize> {
    if s.len() > 0 && s[0] == '+' {
        decimal_usize(s.skip(1))
    } else {
        decimal_usize(s)
    }
}

/// Reads a number that is written in decimal digits, with or without a plus
/// sign before them.
pub fn parse_unsigned(text: &str) -> (r: Option<usize>)
    ensures
        r == unsigned_usize(text@),
{
    proof {
        reveal_strlit("+");
    }
    match strip_prefix(text, "+") {
        Some(digits) => {
            assert(digits@ =~= text@.skip(1));
            assert(text@[0] == '+');
            parse_decimal(digits)
        },
        None => {
            proof {
                if text@.len() > 0 && text@[0] == '+' {
                    assert("+"@ =~= text@.subrange(0, 1));
                }
            }
            parse_decimal(text)
        },
    }
}

/// The character that writes a digit.
pub open spec fn digit_char(d: nat) -> char {
    if d == 0 {
        '0'
    } else if d == 1 {
        '1'
    } else if d == 2 {
        '2'
    } else if d == 3 {
        '3'
    } else if d == 4 {
        '4'
    } else if d == 5 {
        '5'
    } else if d == 6 {
        '6'
    } else if d == 7 {
        '7'
    } else if d == 8 {
        '8'
    } else {
        '9'
    }
}

/// A number written in decimal digits, without leading zeros.
pub open spec fn decimal_text(n: nat) -> Seq<char>
    decreases n,
{
    if n < 10 {
        seq![digit_char(n)]
    } else {
        decimal_text(n / 10).push(digit_char(n % 10))
    }
}

/// What is written of a number reads as the number.
pub proof fn lemma_decimal_text_reads_back(n: nat)
    ensures
        decimal(decimal_text(n)) == Some(n),
    decreases n,
{
    let text = decimal_text(n);
    if n < 10 {
        assert(text.drop_last() =~= Seq::<char>::empty());
        assert(digits_value(text.drop_last()) == 0);
        assert(text.last() == digit_char(n));
    } else {
        lemma_decimal_text_reads_back(n / 10);
        let before = decimal_text(n / 10);
        assert(text.drop_last() =~= before);
        assert(text.last() == digit_char(n % 10));
        assert forall|i: int| 0 <= i < text.len() implies is_digit(#[trigger] text[i]) by {
            if i < before.len() {
                assert(text[i] == before[i]);
            }
        }
    }
}

/// The text of one digit.
fn digit_text(d: u32) -> (r: &'static str)
    requires
        d < 10,
    ensures
        r@ == seq![digit_char(d as nat)],
{
    proof {
        reveal_strlit("0");
        reveal_strlit("1");
        reveal_strlit("2");
        reveal_strlit("3");
        reveal_strlit("4");
        reveal_strlit("5");
        reveal_strlit("6");
        reveal_strlit("7");
        reveal_strlit("8");
        reveal_strlit("9");
    }
    let r = if d == 0 {
        "0"
    } else if d == 1 {
        "1"
    } else if d == 2 {
        "2"
    } else if d == 3 {
        "3"
    } else if d == 4 {
        "4"
    } else if d == 5 {
        "5"
    } else if d == 6 {
        "6"
    } else if d == 7 {
        "7"
    } else if d == 8 {
        "8"
    } else {
        "9"
    };
    assert(r@ =~= seq![digit_char(d as nat)]);
    r
}

/// Writes a number in decimal digits.
pub fn write_decimal(n: u32) -> (r: String)
    ensures
        r@ == decimal_text(n as nat),
    decreases n,
{
    if n < 10 {
        String::from_str(digit_text(n))
    } else {
        let r = write_decimal(n / 10).concat(digit_text(n % 10));
        assert(r@ =~= decimal_text((n / 10) as nat).push(digit_char((n % 10) as nat)));
        r
    }
}

} // verus!
