//! Character and string helpers shared by the SMTP parsing and rendering code.
//!
//! Everything here works on `Seq<char>` views; the executable functions carry
//! exact contracts so that the protocol layers can state their replies and
//! parsed fields byte for byte.

use vstd::prelude::*;

verus! {

/// The ASCII whitespace characters recognized by the command parser.
pub open spec fn is_space_char(c: char) -> bool {
    c == ' ' || c == '\t' || c == '\r' || c == '\n'
}

/// True when every character of `s` is ASCII whitespace (an empty sequence is blank).
pub open spec fn is_blank_seq(s: Seq<char>) -> bool {
    forall|i: int| 0 <= i < s.len() ==> is_space_char(#[trigger] s[i])
}

/// ASCII upper-casing of a single character; other characters are unchanged.
pub open spec fn upper_char(c: char) -> char {
    if 'a' <= c && c <= 'z' {
        ((c as u32) - 32) as char
    } else {
        c
    }
}

/// ASCII lower-casing of a single character; other characters are unchanged.
pub open spec fn lower_char(c: char) -> char {
    if 'A' <= c && c <= 'Z' {
        ((c as u32) + 32) as char
    } else {
        c
    }
}

/// ASCII upper-casing of a character sequence.
pub open spec fn upper_seq(s: Seq<char>) -> Seq<char> {
    Seq::new(s.len(), |i: int| upper_char(s[i]))
}

/// ASCII lower-casing of a character sequence.
pub open spec fn lower_seq(s: Seq<char>) -> Seq<char> {
    Seq::new(s.len(), |i: int| lower_char(s[i]))
}

/// Number of leading ASCII whitespace characters of `s`.
pub open spec fn leading_spaces(s: Seq<char>) -> int
    decreases s.len(),
{
    if s.len() == 0 {
        0
    } else if is_space_char(s[0]) {
        1 + leading_spaces(s.drop_first())
    } else {
        0
    }
}

/// Number of trailing ASCII whitespace characters of `s`.
pub open spec fn trailing_spaces(s: Seq<char>) -> int
    decreases s.len(),
{
    if s.len() == 0 {
        0
    } else if is_space_char(s[s.len() - 1]) {
        1 + trailing_spaces(s.drop_last())
    } else {
        0
    }
}

/// `s` with leading and trailing ASCII whitespace removed.
pub open spec fn trim_seq(s: Seq<char>) -> Seq<char> {
    if leading_spaces(s) == s.len() {
        Seq::empty()
    } else {
        s.subrange(leading_spaces(s), s.len() - trailing_spaces(s))
    }
}

proof fn lemma_leading_spaces_from_scan(s: Seq<char>, a: int)
    requires
        0 <= a <= s.len(),
        forall|i: int| 0 <= i < a ==> is_space_char(#[trigger] s[i]),
        a < s.len() ==> !is_space_char(s[a]),
    ensures
        leading_spaces(s) == a,
    decreases s.len(),
{
    if s.len() == 0 {
    } else if is_space_char(s[0]) {
        assert(a >= 1);
        let t = s.drop_first();
        assert(forall|i: int| 0 <= i < a - 1 ==> is_space_char(#[trigger] t[i]));
        lemma_leading_spaces_from_scan(t, a - 1);
    } else {
        assert(a == 0);
    }
}

proof fn lemma_trailing_spaces_from_scan(s: Seq<char>, b: int)
    requires
        0 <= b <= s.len(),
        forall|i: int| b <= i < s.len() ==> is_space_char(#[trigger] s[i]),
        b > 0 ==> !is_space_char(s[b - 1]),
    ensures
        trailing_spaces(s) == s.len() - b,
    decreases s.len(),
{
    if s.len() == 0 {
    } else if is_space_char(s[s.len() - 1]) {
        assert(b < s.len());
        let t = s.drop_last();
        assert(forall|i: int| b <= i < t.len() ==> is_space_char(#[trigger] t[i]));
        lemma_trailing_spaces_from_scan(t, b);
    } else {
        assert(b == s.len());
    }
}

/// Whether a string consists entirely of ASCII whitespace (or is empty).
pub fn is_blank(s: &str) -> (r: bool)
    ensures
        r == is_blank_seq(s@),
{
    let len = s.unicode_len();
    let mut i: usize = 0;
    while i < len
        invariant
            len == s@.len(),
            0 <= i <= len,
            forall|j: int| 0 <= j < i ==> is_space_char(#[trigger] s@[j]),
        decreases len - i,
    {
        let c = s.get_char(i);
        if !(c == ' ' || c == '\t' || c == '\r' || c == '\n') {
            return false;
        }
        i += 1;
    }
    true
}

/// Character-wise equality of two string slices.
pub fn str_eq(a: &str, b: &str) -> (r: bool)
    ensures
        r == (a@ == b@),
{
    let alen = a.unicode_len();
    let blen = b.unicode_len();
    if alen != blen {
        assert(a@.len() != b@.len());
        return false;
    }
    let mut i: usize = 0;
    while i < alen
        invariant
            alen == a@.len(),
            alen == b@.len(),
            0 <= i <= alen,
            forall|j: int| 0 <= j < i ==> a@[j] == b@[j],
        decreases alen - i,
    {
        if a.get_char(i) != b.get_char(i) {
            return false;
        }
        i += 1;
    }
    proof {
        assert(a@ =~= b@);
    }
    true
}

/// Equality of two string slices up to ASCII case.
pub fn str_eq_ignore_case(a: &str, b: &str) -> (r: bool)
    ensures
        r == (upper_seq(a@) == upper_seq(b@)),
{
    let alen = a.unicode_len();
    let blen = b.unicode_len();
    if alen != blen {
        assert(upper_seq(a@).len() != upper_seq(b@).len());
        return false;
    }
    let mut i: usize = 0;
    while i < alen
        invariant
            alen == a@.len(),
            alen == b@.len(),
            0 <= i <= alen,
            forall|j: int| 0 <= j < i ==> upper_char(a@[j]) == upper_char(b@[j]),
        decreases alen - i,
    {
        let ca = upper_char_exec(a.get_char(i));
        let cb = upper_char_exec(b.get_char(i));
        if ca != cb {
            assert(upper_seq(a@)[i as int] != upper_seq(b@)[i as int]);
            return false;
        }
        i += 1;
    }
    proof {
        assert(upper_seq(a@) =~= upper_seq(b@));
    }
    true
}

/// ASCII upper-casing of one character.
pub fn upper_char_exec(c: char) -> (r: char)
    ensures
        r == upper_char(c),
{
    if 'a' <= c && c <= 'z' {
        (((c as u32) - 32) as u8) as char
    } else {
        c
    }
}

/// ASCII lower-casing of one character.
pub fn lower_char_exec(c: char) -> (r: char)
    ensures
        r == lower_char(c),
{
    if 'A' <= c && c <= 'Z' {
        (((c as u32) + 32) as u8) as char
    } else {
        c
    }
}

/// Relies on `String::push`: appends exactly the one character to the string.
#[verifier::external_body]
pub fn push_char(s: &mut String, c: char)
    ensures
        final(s)@ == old(s)@.push(c),
{
    s.push(c)
}

/// Copies a span of `s` into a fresh `String`, upper-casing ASCII letters.
pub fn upper_span(s: &str, from: usize, to: usize) -> (r: String)
    requires
        0 <= from <= to <= s@.len(),
    ensures
        r@ == upper_seq(s@.subrange(from as int, to as int)),
{
    let mut out = String::new();
    let mut i: usize = from;
    while i < to
        invariant
            from <= i <= to <= s@.len(),
            out@ == upper_seq(s@.subrange(from as int, i as int)),
        decreases to - i,
    {
        let c = upper_char_exec(s.get_char(i));
        push_char(&mut out, c);
        i += 1;
        proof {
            assert(out@ =~= upper_seq(s@.subrange(from as int, i as int)));
        }
    }
    out
}

/// Copies a span of `s` into a fresh `String`, lower-casing ASCII letters.
pub fn lower_span(s: &str, from: usize, to: usize) -> (r: String)
    requires
        0 <= from <= to <= s@.len(),
    ensures
        r@ == lower_seq(s@.subrange(from as int, to as int)),
{
    let mut out = String::new();
    let mut i: usize = from;
    while i < to
        invariant
            from <= i <= to <= s@.len(),
            out@ == lower_seq(s@.subrange(from as int, i as int)),
        decreases to - i,
    {
        let c = lower_char_exec(s.get_char(i));
        push_char(&mut out, c);
        i += 1;
        proof {
            assert(out@ =~= lower_seq(s@.subrange(from as int, i as int)));
        }
    }
    out
}

/// Copies a span of `s` into a fresh `String` unchanged.
pub fn copy_span(s: &str, from: usize, to: usize) -> (r: String)
    requires
        0 <= from <= to <= s@.len(),
    ensures
        r@ == s@.subrange(from as int, to as int),
{
    let mut out = String::new();
    let mut i: usize = from;
    while i < to
        invariant
            from <= i <= to <= s@.len(),
            out@ == s@.subrange(from as int, i as int),
        decreases to - i,
    {
        let c = s.get_char(i);
        push_char(&mut out, c);
        i += 1;
        proof {
            assert(out@ =~= s@.subrange(from as int, i as int));
        }
    }
    out
}

/// Number of leading characters of `s` satisfying `p`.
pub open spec fn leading_while(s: Seq<char>, p: spec_fn(char) -> bool) -> int
    decreases s.len(),
{
    if s.len() == 0 {
        0
    } else if p(s[0]) {
        1 + leading_while(s.drop_first(), p)
    } else {
        0
    }
}

/// Number of trailing characters of `s` satisfying `p`.
pub open spec fn trailing_while(s: Seq<char>, p: spec_fn(char) -> bool) -> int
    decreases s.len(),
{
    if s.len() == 0 {
        0
    } else if p(s[s.len() - 1]) {
        1 + trailing_while(s.drop_last(), p)
    } else {
        0
    }
}

pub proof fn lemma_leading_while_from_scan(s: Seq<char>, p: spec_fn(char) -> bool, a: int)
    requires
        0 <= a <= s.len(),
        forall|i: int| 0 <= i < a ==> p(#[trigger] s[i]),
        a < s.len() ==> !p(s[a]),
    ensures
        leading_while(s, p) == a,
    decreases s.len(),
{
    if s.len() == 0 {
    } else if p(s[0]) {
        assert(a >= 1);
        let t = s.drop_first();
        assert(forall|i: int| 0 <= i < a - 1 ==> p(#[trigger] t[i]));
        lemma_leading_while_from_scan(t, p, a - 1);
    } else {
        assert(a == 0);
    }
}

pub proof fn lemma_trailing_while_from_scan(s: Seq<char>, p: spec_fn(char) -> bool, b: int)
    requires
        0 <= b <= s.len(),
        forall|i: int| b <= i < s.len() ==> p(#[trigger] s[i]),
        b > 0 ==> !p(s[b - 1]),
    ensures
        trailing_while(s, p) == s.len() - b,
    decreases s.len(),
{
    if s.len() == 0 {
    } else if p(s[s.len() - 1]) {
        assert(b < s.len());
        let t = s.drop_last();
        assert(forall|i: int| b <= i < t.len() ==> p(#[trigger] t[i]));
        lemma_trailing_while_from_scan(t, p, b);
    } else {
        assert(b == s.len());
    }
}

/// Whether the character of `s` at index `i` is ASCII whitespace.
pub fn space_at(s: &str, i: usize) -> (r: bool)
    requires
        i < s@.len(),
    ensures
        r == is_space_char(s@[i as int]),
{
    let c = s.get_char(i);
    c == ' ' || c == '\t' || c == '\r' || c == '\n'
}

/// A fresh `String` holding `s` with leading and trailing ASCII whitespace removed.
pub fn trim_copy(s: &str) -> (r: String)
    ensures
        r@ == trim_seq(s@),
{
    let len = s.unicode_len();
    let mut a: usize = 0;
    while a < len && space_at(s, a)
        invariant
            len == s@.len(),
            0 <= a <= len,
            forall|j: int| 0 <= j < a ==> is_space_char(#[trigger] s@[j]),
        decreases len - a,
    {
        a += 1;
    }
    proof {
        lemma_leading_spaces_from_scan(s@, a as int);
    }
    if a == len {
        let out = String::new();
        proof {
            assert(trim_seq(s@) =~= Seq::<char>::empty());
        }
        return out;
    }
    let mut b: usize = len;
    while b > a && space_at(s, b - 1)
        invariant
            len == s@.len(),
            a <= b <= len,
            a < len,
            !is_space_char(s@[a as int]),
            forall|j: int| b <= j < len ==> is_space_char(#[trigger] s@[j]),
        decreases b,
    {
        b -= 1;
    }
    assert(b > a);
    proof {
        lemma_trailing_spaces_from_scan(s@, b as int);
    }
    copy_span(s, a, b)
}

/// The decimal digit character for `d`.
pub open spec fn digit_char(d: int) -> char {
    ((d + 48) as u8) as char
}

/// The three decimal digits of an SMTP reply code.
pub open spec fn code_digits(code: int) -> Seq<char> {
    seq![digit_char(code / 100), digit_char((code / 10) % 10), digit_char(code % 10)]
}

/// Renders a three-digit SMTP reply code as text.
pub fn code_to_digits(code: u16) -> (r: String)
    requires
        code <= 999,
    ensures
        r@ == code_digits(code as int),
{
    let mut out = String::new();
    let d0: u8 = (code / 100) as u8 + 48;
    let d1: u8 = ((code / 10) % 10) as u8 + 48;
    let d2: u8 = (code % 10) as u8 + 48;
    push_char(&mut out, d0 as char);
    push_char(&mut out, d1 as char);
    push_char(&mut out, d2 as char);
    proof {
        assert(out@ =~= code_digits(code as int));
    }
    out
}

/// The lines of a diagnostic, joined by `" | "`.
pub open spec fn join_pipe_seq(lines: Seq<Seq<char>>) -> Seq<char>
    decreases lines.len(),
{
    if lines.len() == 0 {
        Seq::empty()
    } else if lines.len() == 1 {
        lines[0]
    } else {
        join_pipe_seq(lines.drop_last()) + " | "@ + lines.last()
    }
}

/// Joins reply lines with `" | "` for diagnostic messages.
pub fn join_pipe(lines: &Vec<String>) -> (r: String)
    ensures
        r@ == join_pipe_seq(lines.deep_view()),
{
    let mut out = String::new();
    let mut i: usize = 0;
    while i < lines.len()
        invariant
            0 <= i <= lines.len(),
            lines.deep_view().len() == lines.len(),
            out@ == join_pipe_seq(lines.deep_view().subrange(0, i as int)),
        decreases lines.len() - i,
    {
        if i > 0 {
            out.append(" | ");
        }
        out.append(lines[i].as_str());
        proof {
            let dv = lines.deep_view();
            assert(dv.subrange(0, (i + 1) as int).drop_last() =~= dv.subrange(0, i as int));
            assert(dv.subrange(0, (i + 1) as int).last() == dv[i as int]);
            assert(dv[i as int] == lines[i as int]@);
        }
        i += 1;
    }
    proof {
        assert(lines.deep_view().subrange(0, lines.len() as int) =~= lines.deep_view());
    }
    out
}

} // verus!
