//! Text as a sequence of characters: fields cut at a separator, decimal
//! numerals, and the helpers that take strings apart and put them together.

use vstd::prelude::*;
use vstd::string::*;

verus! {

/// How many characters of `s` stand before its first `sep`: the length of
/// `s` where it holds no `sep` at all.
pub open spec fn field_len(s: Seq<char>, sep: char) -> nat
    decreases s.len(),
{
    if s.len() == 0 || s[0] == sep {
        0
    } else {
        1 + field_len(s.drop_first(), sep)
    }
}

/// The first field of `s`: what stands before its first `sep`.
pub open spec fn first_field(s: Seq<char>, sep: char) -> Seq<char> {
    s.take(field_len(s, sep) as int)
}

/// What follows the first `sep` of `s`, where `s` holds one.
pub open spec fn after_first_field(s: Seq<char>, sep: char) -> Option<Seq<char>> {
    if field_len(s, sep) < s.len() {
        Some(s.skip(field_len(s, sep) as int + 1))
    } else {
        None
    }
}

/// Only one position is free of separators before it and holds one itself
/// (or is the end of the text): the length of the first field.
proof fn lemma_field_len_is(s: Seq<char>, sep: char, n: int)
    requires
        0 <= n <= s.len(),
        forall|i: int| 0 <= i < n ==> s[i] != sep,
        n < s.len() ==> s[n] == sep,
    ensures
        field_len(s, sep) == n,
    decreases s.len(),
{
    if s.len() > 0 && s[0] != sep {
        lemma_field_len_is(s.drop_first(), sep, n - 1);
    }
}

/// A text without separator is one field, with nothing after it.
pub proof fn lemma_single_field(s: Seq<char>, sep: char)
    requires
        forall|i: int| 0 <= i < s.len() ==> s[i] != sep,
    ensures
        first_field(s, sep) == s,
        after_first_field(s, sep) is None,
{
    lemma_field_len_is(s, sep, s.len() as int);
}

/// Where a separator joins a text without separator to another, the first
/// is the first field and the second is what follows it.
pub proof fn lemma_joined_fields(head: Seq<char>, sep: char, rest: Seq<char>)
    requires
        forall|i: int| 0 <= i < head.len() ==> head[i] != sep,
    ensures
        first_field(head + seq![sep] + rest, sep) == head,
        after_first_field(head + seq![sep] + rest, sep) == Some(rest),
{
    lemma_field_len_is(head + seq![sep] + rest, sep, head.len() as int);
}

/// Whether `c` is one of the ten decimal digits.
pub open spec fn is_digit(c: char) -> bool {
    '0' <= c && c <= '9'
}

/// The number that the digit `c` stands for.
pub open spec fn digit_value(c: char) -> nat {
    (c as int - '0' as int) as nat
}

/// The digit that stands for `d`, a number under ten.
pub open spec fn digit_char(d: nat) -> char {
    ('0' as nat + d) as char
}

/// Whether every character of `s` is a decimal digit.
pub open spec fn all_digits(s: Seq<char>) -> bool {
    forall|i: int| 0 <= i < s.len() ==> is_digit(#[trigger] s[i])
}

/// The number that a run of decimal digits writes, the empty run writing 0.
pub open spec fn decimal_value(s: Seq<char>) -> nat
    decreases s.len(),
{
    if s.len() == 0 {
        0
    } else {
        decimal_value(s.drop_last()) * 10 + digit_value(s.last())
    }
}

/// The byte that a numeral writes: one or more decimal digits and nothing
/// else, worth at most 255.
pub open spec fn numeral_value(s: Seq<char>) -> Option<u8> {
    if s.len() > 0 && all_digits(s) && decimal_value(s) <= 255 {
        Some(decimal_value(s) as u8)
    } else {
        None
    }
}

/// The byte that a field writes: a numeral, which a single `+` may precede.
pub open spec fn byte_value(s: Seq<char>) -> Option<u8> {
    if s.len() > 0 && s[0] == '+' {
        numeral_value(s.drop_first())
    } else {
        numeral_value(s)
    }
}

/// The decimal numeral of `n`, without leading zeros.
pub open spec fn decimal_text(n: nat) -> Seq<char>
    decreases n,
{
    if n < 10 {
        seq![digit_char(n)]
    } else {
        decimal_text(n / 10).push(digit_char(n % 10))
    }
}

/// A run of digits is worth at least as much as any run it starts with.
proof fn lemma_decimal_value_grows(s: Seq<char>, k: int)
    requires
        0 <= k <= s.len(),
    ensures
        decimal_value(s.take(k)) <= decimal_value(s),
    decreases s.len() - k,
{
    if k == s.len() {
        assert(s.take(k) == s);
    } else {
        lemma_decimal_value_grows(s, k + 1);
        assert(s.take(k + 1).drop_last() == s.take(k));
    }
}

/// The numeral of a number reads back as that number.
pub proof fn lemma_decimal_text_reads_back(n: nat)
    ensures
        decimal_text(n).len() > 0,
        all_digits(decimal_text(n)),
        decimal_value(decimal_text(n)) == n,
        n > 0 ==> decimal_text(n)[0] != '0',
    decreases n,
{
    if n < 10 {
        let t = decimal_text(n);
        assert(decimal_value(t) == decimal_value(t.drop_last()) * 10 + digit_value(t.last()));
    } else {
        lemma_decimal_text_reads_back(n / 10);
        let head = decimal_text(n / 10);
        let t = decimal_text(n);
        assert(t.drop_last() == head);
    }
}

/// The text that a string holds, where there is one.
pub open spec fn str_text(s: Option<&str>) -> Option<Seq<char>> {
    match s {
        Some(s) => Some(s@),
        None => None,
    }
}

/// The text that a run of characters holds, where there is one.
pub open spec fn chars_text(chars: Option<Vec<char>>) -> Option<Seq<char>> {
    match chars {
        Some(chars) => Some(chars@),
        None => None,
    }
}

/// The texts that a run of strings holds.
pub open spec fn texts(strings: Seq<String>) -> Seq<Seq<char>> {
    strings.map_values(|s: String| s@)
}

/// The characters of `s`, in order.
pub fn chars_of(s: &str) -> (chars: Vec<char>)
    ensures
        chars@ == s@,
{
    let mut chars: Vec<char> = Vec::new();
    for c in it: s.chars()
        invariant
            chars@ == it.seq().take(it.index() as int),
    {
        chars.push(c);
    }
    chars
}

/// Whether the two texts hold the same characters.
pub fn same_chars(a: &Vec<char>, b: &Vec<char>) -> (same: bool)
    ensures
        same == (a@ == b@),
{
    if a.len() != b.len() {
        return false;
    }
    let mut i: usize = 0;
    while i < a.len()
        invariant
            i <= a.len(),
            a.len() == b.len(),
            a@.take(i as int) == b@.take(i as int),
        decreases a.len() - i,
    {
        if a[i] != b[i] {
            return false;
        }
        i += 1;
    }
    assert(a@ =~= a@.take(i as int));
    assert(b@ =~= b@.take(i as int));
    true
}

/// Whether `text` reads exactly as `word`.
pub fn reads_as(text: &Vec<char>, word: &str) -> (same: bool)
    ensures
        same == (text@ == word@),
{
    let word_chars = chars_of(word);
    same_chars(text, &word_chars)
}

/// Whether the two strings hold the same characters.
pub fn same_str(a: &str, b: &str) -> (same: bool)
    ensures
        same == (a@ == b@),
{
    let a_chars = chars_of(a);
    reads_as(&a_chars, b)
}

/// Whether `text` begins with `word`.
pub fn begins_with(text: &Vec<char>, word: &str) -> (begins: bool)
    ensures
        begins == word@.is_prefix_of(text@),
{
    let word_chars = chars_of(word);
    if word_chars.len() > text.len() {
        return false;
    }
    let mut i: usize = 0;
    while i < word_chars.len()
        invariant
            i <= word_chars.len() <= text.len(),
            word_chars@ == word@,
            forall|j: int| 0 <= j < i ==> word_chars@[j] == text@[j],
        decreases word_chars.len() - i,
    {
        if word_chars[i] != text[i] {
            return false;
        }
        i += 1;
    }
    true
}

/// Whether `text` ends with `word`.
pub fn ends_with(text: &Vec<char>, word: &str) -> (ends: bool)
    ensures
        ends == word@.is_suffix_of(text@),
{
    let word_chars = chars_of(word);
    if word_chars.len() > text.len() {
        return false;
    }
    let shift: usize = text.len() - word_chars.len();
    let mut i: usize = 0;
    while i < word_chars.len()
        invariant
            i <= word_chars.len() <= text.len(),
            shift == text.len() - word_chars.len(),
            word_chars@ == word@,
            forall|j: int| 0 <= j < i ==> word_chars@[j] == text@[shift + j],
        decreases word_chars.len() - i,
    {
        if word_chars[i] != text[shift + i] {
            return false;
        }
        i += 1;
    }
    true
}

/// The characters of `text` from position `from` up to position `to`.
pub fn slice_of(text: &Vec<char>, from: usize, to: usize) -> (part: Vec<char>)
    requires
        from <= to <= text.len(),
    ensures
        part@ == text@.subrange(from as int, to as int),
{
    let mut part: Vec<char> = Vec::new();
    let mut i: usize = from;
    while i < to
        invariant
            from <= i <= to <= text.len(),
            part@ == text@.subrange(from as int, i as int),
        decreases to - i,
    {
        part.push(text[i]);
        i += 1;
    }
    part
}

/// Cuts `text` at its first `sep`: the first field, and what follows the
/// separator where there is one.
pub fn split_first(text: &Vec<char>, sep: char) -> (parts: (Vec<char>, Option<Vec<char>>))
    ensures
        parts.0@ == first_field(text@, sep),
        match parts.1 {
            Some(rest) => after_first_field(text@, sep) == Some(rest@),
            None => after_first_field(text@, sep) is None,
        },
{
    let mut end: usize = 0;
    while end < text.len() && text[end] != sep
        invariant
            end <= text.len(),
            forall|j: int| 0 <= j < end ==> text@[j] != sep,
        decreases text.len() - end,
    {
        end += 1;
    }
    proof {
        lemma_field_len_is(text@, sep, end as int);
    }
    let field = slice_of(text, 0, end);
    if end < text.len() {
        let rest = slice_of(text, end + 1, text.len());
        (field, Some(rest))
    } else {
        (field, None)
    }
}

/// Reads the numeral that `text` holds from position `start` on.
fn parse_numeral_from(text: &Vec<char>, start: usize) -> (value: Option<u8>)
    requires
        start <= text.len(),
    ensures
        value == numeral_value(text@.skip(start as int)),
{
    let ghost digits = text@.skip(start as int);
    if start == text.len() {
        return None;
    }
    let mut value: u16 = 0;
    let mut i: usize = start;
    while i < text.len()
        invariant
            start <= i <= text.len(),
            digits == text@.skip(start as int),
            all_digits(digits.take(i - start)),
            value == decimal_value(digits.take(i - start)),
            value <= 255,
        decreases text.len() - i,
    {
        let c = text[i];
        let ghost seen = digits.take(i - start + 1);
        proof {
            assert(seen.drop_last() == digits.take(i - start));
        }
        if !(c >= '0' && c <= '9') {
            assert(!is_digit(digits[i - start]));
            return None;
        }
        let d: u16 = (c as u8 - '0' as u8) as u16;
        value = value * 10 + d;
        if value > 255 {
            proof {
                lemma_decimal_value_grows(digits, i - start + 1);
            }
            return None;
        }
        i += 1;
    }
    assert(digits.take(i - start) == digits);
    Some(value as u8)
}

/// Reads `text` as a numeral: digits only.
pub fn parse_numeral(text: &Vec<char>) -> (value: Option<u8>)
    ensures
        value == numeral_value(text@),
{
    assert(text@.skip(0) == text@);
    parse_numeral_from(text, 0)
}

/// Reads `text` as a byte: a numeral, which a single `+` may precede.
pub fn parse_byte(text: &Vec<char>) -> (value: Option<u8>)
    ensures
        value == byte_value(text@),
{
    if text.len() > 0 && text[0] == '+' {
        parse_numeral_from(text, 1)
    } else {
        assert(text@.skip(0) == text@);
        parse_numeral_from(text, 0)
    }
}

/// The one-character string of the digit `d`.
fn digit_str(d: u8) -> (s: &'static str)
    requires
        d < 10,
    ensures
        s@ == seq![digit_char(d as nat)],
{
    proof {
        reveal_strlit("0");
        reveal_strlit("1");
        reveal_strlit("2");
        reveal_strlit("3");
        reveal_strlit("4");
        reveal_strlit("5");
        reveal_strlit("6");
        reveal_strlit("7");
        reveal_strlit("8");
        reveal_strlit("9");
    }
    match d {
        0 => "0",
        1 => "1",
        2 => "2",
        3 => "3",
        4 => "4",
        5 => "5",
        6 => "6",
        7 => "7",
        8 => "8",
        _ => "9",
    }
}

/// Appends the decimal numeral of `n` to `out`.
pub fn push_decimal(out: &mut String, n: u8)
    ensures
        final(out)@ == old(out)@ + decimal_text(n as nat),
{
    if n >= 100 {
        out.append(digit_str(n / 100));
    }
    if n >= 10 {
        out.append(digit_str((n / 10) % 10));
    }
    out.append(digit_str(n % 10));
    proof {
        let n = n as nat;
        if n >= 100 {
            assert(decimal_text(n / 10) == decimal_text(n / 100).push(digit_char((n / 10) % 10)));
        } else if n >= 10 {
            assert(decimal_text(n / 10) == seq![digit_char(n / 10)]);
        }
    }
}

} // verus!
