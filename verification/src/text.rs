//! Building and comparing short pieces of text.

use vstd::prelude::*;

verus! {

/// `String::push` appends one character at the end and changes nothing else.
pub assume_specification[ String::push ](s: &mut String, c: char)
    ensures
        final(s)@ == old(s)@.push(c),
;

/// The character of a hexadecimal digit, letters in lower case.
pub open spec fn hex_digit(d: int) -> char {
    if d < 10 {
        (d + 48) as u8 as char
    } else {
        (d + 87) as u8 as char
    }
}

/// A 16-bit value as four hexadecimal digits, highest first.
pub open spec fn hex4(v: int) -> Seq<char> {
    seq![
        hex_digit(v / 4096),
        hex_digit((v / 256) % 16),
        hex_digit((v / 16) % 16),
        hex_digit(v % 16),
    ]
}

/// Appends the hexadecimal digit `d` to `out`.
fn push_hex_digit(out: &mut String, d: u16)
    requires
        d < 16,
    ensures
        final(out)@ == old(out)@.push(hex_digit(d as int)),
{
    let b: u8 = if d < 10 {
        (d + 48) as u8
    } else {
        (d + 87) as u8
    };
    out.push(b as char);
}

/// Appends `v` to `out` as four lower-case hexadecimal digits.
pub fn push_hex4(out: &mut String, v: u16)
    ensures
        final(out)@ == old(out)@ + hex4(v as int),
{
    push_hex_digit(out, v / 4096);
    push_hex_digit(out, (v / 256) % 16);
    push_hex_digit(out, (v / 16) % 16);
    push_hex_digit(out, v % 16);
    assert(out@ =~= old(out)@ + hex4(v as int));
}

/// The texts of some strings, each as a sequence of characters.
pub open spec fn texts(strings: Seq<String>) -> Seq<Seq<char>> {
    strings.map_values(|s: String| s@)
}

/// The characters of `s`, one by one.
pub fn chars_of(s: &str) -> (v: Vec<char>)
    ensures
        v@ == s@,
{
    let mut v: Vec<char> = Vec::new();
    for c in it: s.chars()
        invariant
            it.seq() == s@,
            v@ == s@.take(it.index() as int),
    {
        v.push(c);
        assert(s@.take(it.index() + 1) =~= s@.take(it.index() as int).push(c));
    }
    assert(s@.take(s@.len() as int) =~= s@);
    v
}

/// Whether a character is white space: the result of `char::is_whitespace`,
/// which goes by the Unicode property `White_Space`.
pub uninterp spec fn is_white_space(c: char) -> bool;

/// `char::is_whitespace` depends on the character alone.
pub assume_specification[ char::is_whitespace ](c: char) -> (r: bool)
    ensures
        r == is_white_space(c),
;

/// Number of white-space characters at the start of `s`.
pub open spec fn blank_prefix(s: Seq<char>) -> int
    decreases s.len(),
{
    if s.len() > 0 && is_white_space(s[0]) {
        1 + blank_prefix(s.skip(1))
    } else {
        0
    }
}

/// Number of white-space characters at the end of `s`.
pub open spec fn blank_suffix(s: Seq<char>) -> int
    decreases s.len(),
{
    if s.len() > 0 && is_white_space(s.last()) {
        1 + blank_suffix(s.drop_last())
    } else {
        0
    }
}

/// `s` without the white space at its start and at its end.
pub open spec fn trimmed(s: Seq<char>) -> Seq<char> {
    let rest = s.skip(blank_prefix(s));
    rest.take(rest.len() - blank_suffix(rest))
}

/// The white space at the start ends at `n` when every character before `n`
/// is white space and the text ends there or goes on with another character.
pub proof fn lemma_blank_prefix(s: Seq<char>, n: int)
    requires
        0 <= n <= s.len(),
        forall|k: int| 0 <= k < n ==> is_white_space(#[trigger] s[k]),
        n == s.len() || !is_white_space(s[n]),
    ensures
        blank_prefix(s) == n,
    decreases n,
{
    if n > 0 {
        let rest = s.skip(1);
        assert forall|k: int| 0 <= k < n - 1 implies is_white_space(#[trigger] rest[k]) by {
            assert(rest[k] == s[k + 1]);
        }
        lemma_blank_prefix(rest, n - 1);
    }
}

/// The white space at the end has `n` characters when the last `n` are
/// white space and the one before them, if any, is not.
pub proof fn lemma_blank_suffix(s: Seq<char>, n: int)
    requires
        0 <= n <= s.len(),
        forall|k: int| s.len() - n <= k < s.len() ==> is_white_space(#[trigger] s[k]),
        n == s.len() || !is_white_space(s[s.len() - n - 1]),
    ensures
        blank_suffix(s) == n,
    decreases n,
{
    if n > 0 {
        let rest = s.drop_last();
        assert forall|k: int| rest.len() - (n - 1) <= k < rest.len() implies is_white_space(
            #[trigger] rest[k],
        ) by {
            assert(rest[k] == s[k]);
        }
        lemma_blank_suffix(rest, n - 1);
    }
}

/// Whether `text` without the white space around it reads `word`.
pub fn trimmed_equals(text: &str, word: &str) -> (r: bool)
    ensures
        r == (trimmed(text@) == word@),
{
    let chars = chars_of(text);
    let want = chars_of(word);
    let len = chars.len();
    let mut start: usize = 0;
    while start < len && chars[start].is_whitespace()
        invariant
            start <= len == chars@.len(),
            forall|k: int| 0 <= k < start ==> is_white_space(#[trigger] chars@[k]),
        decreases len - start,
    {
        start = start + 1;
    }
    let mut end: usize = len;
    while end > start && chars[end - 1].is_whitespace()
        invariant
            start <= end <= len == chars@.len(),
            forall|k: int| end <= k < len ==> is_white_space(#[trigger] chars@[k]),
        decreases end,
    {
        end = end - 1;
    }
    proof {
        lemma_blank_prefix(chars@, start as int);
        let rest = chars@.skip(start as int);
        assert forall|k: int| rest.len() - (len - end) <= k < rest.len() implies is_white_space(
            #[trigger] rest[k],
        ) by {
            assert(rest[k] == chars@[k + start]);
        }
        if end > start {
            assert(rest[end - start - 1] == chars@[end - 1]);
        }
        lemma_blank_suffix(rest, len - end);
        assert(trimmed(text@) =~= chars@.subrange(start as int, end as int));
    }
    if end - start != want.len() {
        return false;
    }
    let mut i: usize = 0;
    while i < want.len()
        invariant
            i <= want@.len() == end - start,
            start <= end <= chars@.len(),
            want@ == word@,
            trimmed(text@) == chars@.subrange(start as int, end as int),
            forall|k: int| 0 <= k < i ==> chars@[start + k] == want@[k],
        decreases want@.len() - i,
    {
        if chars[start + i] != want[i] {
            assert(chars@.subrange(start as int, end as int)[i as int] != want@[i as int]);
            return false;
        }
        i = i + 1;
    }
    assert(chars@.subrange(start as int, end as int) =~= want@);
    true
}

/// Whether `text` begins with `prefix`.
pub fn starts_with(text: &str, prefix: &str) -> (r: bool)
    ensures
        r == prefix@.is_prefix_of(text@),
{
    let chars = chars_of(text);
    let want = chars_of(prefix);
    if want.len() > chars.len() {
        return false;
    }
    let mut i: usize = 0;
    while i < want.len()
        invariant
            i <= want@.len() <= chars@.len(),
            chars@ == text@,
            want@ == prefix@,
            forall|k: int| 0 <= k < i ==> chars@[k] == want@[k],
        decreases want@.len() - i,
    {
        if chars[i] != want[i] {
            assert(chars@.subrange(0, want@.len() as int)[i as int] != want@[i as int]);
            return false;
        }
        i = i + 1;
    }
    assert(want@ =~= chars@.subrange(0, want@.len() as int));
    true
}

/// Whether the character `c` occurs in `text`.
pub fn contains_char(text: &str, c: char) -> (r: bool)
    ensures
        r == text@.contains(c),
{
    let chars = chars_of(text);
    let mut i: usize = 0;
    while i < chars.len()
        invariant
            i <= chars@.len(),
            chars@ == text@,
            forall|k: int| 0 <= k < i ==> chars@[k] != c,
        decreases chars@.len() - i,
    {
        if chars[i] == c {
            return true;
        }
        i = i + 1;
    }
    false
}

/// Whether two pieces of text hold the same characters.
pub fn same_text(a: &str, b: &str) -> (r: bool)
    ensures
        r == (a@ == b@),
{
    let x = chars_of(a);
    let y = chars_of(b);
    if x.len() != y.len() {
        return false;
    }
    let mut i: usize = 0;
    while i < x.len()
        invariant
            i <= x@.len() == y@.len(),
            x@ == a@,
            y@ == b@,
            forall|k: int| 0 <= k < i ==> x@[k] == y@[k],
        decreases x@.len() - i,
    {
        if x[i] != y[i] {
            return false;
        }
        i = i + 1;
    }
    assert(x@ =~= y@);
    true
}

/// The character of a decimal digit.
pub open spec fn decimal_digit(d: int) -> char {
    (d + 48) as u8 as char
}

/// A number in decimal digits, without leading zeros.
pub open spec fn decimal(n: nat) -> Seq<char>
    decreases n,
{
    if n < 10 {
        seq![decimal_digit(n as int)]
    } else {
        decimal(n / 10).push(decimal_digit((n % 10) as int))
    }
}

/// Appends `n` to `out` in decimal digits.
pub fn push_decimal(out: &mut String, n: usize)
    ensures
        final(out)@ == old(out)@ + decimal(n as nat),
    decreases n,
{
    if n >= 10 {
        push_decimal(out, n / 10);
    }
    let d: u8 = (n % 10) as u8 + 48;
    out.push(d as char);
    assert(out@ =~= old(out)@ + decimal(n as nat));
}

} // verus!
