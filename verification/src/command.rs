//! Client command parsing: CRLF stripping, verb extraction, the DATA
//! terminator, and the wire-length bound on incoming lines.

use vstd::prelude::*;

use vstd::string::StringSliceAdditionalSpecFns;

use crate::text::{
    is_space_char, trim_seq, trim_copy, upper_seq, upper_span, copy_span, space_at,
};

verus! {

/// The length in bytes of a line as it appeared on the wire, terminator included.
pub open spec fn wire_len(s: Seq<char>) -> int {
    vstd::utf8::encode_utf8(s).len() as int
}

/// The byte length of a line, as the line-length bound counts it.
pub fn line_byte_len(line: &str) -> (r: usize)
    ensures
        r == wire_len(line@),
{
    let bytes = line.as_bytes();
    let n = bytes.len();
    proof {
        assert(line.spec_bytes() == vstd::utf8::encode_utf8(line@));
    }
    n
}

/// `s` with every trailing carriage return and line feed removed.
pub open spec fn trim_crlf_seq(s: Seq<char>) -> Seq<char>
    decreases s.len(),
{
    if s.len() > 0 && (s.last() == '\r' || s.last() == '\n') {
        trim_crlf_seq(s.drop_last())
    } else {
        s
    }
}

proof fn lemma_trim_crlf_from_scan(s: Seq<char>, b: int)
    requires
        0 <= b <= s.len(),
        forall|i: int| b <= i < s.len() ==> s[i] == '\r' || s[i] == '\n',
        b > 0 ==> !(s[b - 1] == '\r' || s[b - 1] == '\n'),
    ensures
        trim_crlf_seq(s) == s.subrange(0, b),
    decreases s.len(),
{
    if s.len() > 0 && (s.last() == '\r' || s.last() == '\n') {
        assert(b < s.len());
        let t = s.drop_last();
        lemma_trim_crlf_from_scan(t, b);
        assert(t.subrange(0, b) =~= s.subrange(0, b));
    } else {
        assert(s.subrange(0, b) =~= s);
    }
}

/// Strips the CRLF (or bare LF) terminator from a received line.
pub fn trim_crlf(line: &str) -> (r: String)
    ensures
        r@ == trim_crlf_seq(line@),
{
    let len = line.unicode_len();
    let mut b: usize = len;
    while b > 0 && crlf_at(line, b - 1)
        invariant
            len == line@.len(),
            0 <= b <= len,
            forall|i: int| b <= i < len ==> line@[i] == '\r' || line@[i] == '\n',
        decreases b,
    {
        b -= 1;
    }
    proof {
        lemma_trim_crlf_from_scan(line@, b as int);
    }
    copy_span(line, 0, b)
}

/// Whether the character of `line` at index `i` is a carriage return or line feed.
fn crlf_at(line: &str, i: usize) -> (r: bool)
    requires
        i < line@.len(),
    ensures
        r == (line@[i as int] == '\r' || line@[i as int] == '\n'),
{
    let c = line.get_char(i);
    c == '\r' || c == '\n'
}

/// Index of the first ASCII whitespace character of `s`, or its length.
pub open spec fn verb_end(s: Seq<char>) -> int
    decreases s.len(),
{
    if s.len() == 0 {
        0
    } else if is_space_char(s[0]) {
        0
    } else {
        1 + verb_end(s.drop_first())
    }
}

proof fn lemma_verb_end_from_scan(s: Seq<char>, a: int)
    requires
        0 <= a <= s.len(),
        forall|i: int| 0 <= i < a ==> !is_space_char(#[trigger] s[i]),
        a < s.len() ==> is_space_char(s[a]),
    ensures
        verb_end(s) == a,
    decreases s.len(),
{
    if s.len() > 0 && !is_space_char(s[0]) {
        let t = s.drop_first();
        assert(forall|i: int| 0 <= i < a - 1 ==> !is_space_char(#[trigger] t[i]));
        lemma_verb_end_from_scan(t, a - 1);
    }
}

/// The upper-cased verb of a command line: its text up to the first whitespace.
pub open spec fn verb_of(s: Seq<char>) -> Seq<char> {
    upper_seq(s.subrange(0, verb_end(s)))
}

/// The argument of a command line: the text after the first whitespace
/// character, trimmed at both ends.
pub open spec fn argument_of(s: Seq<char>) -> Seq<char> {
    if verb_end(s) < s.len() {
        trim_seq(s.subrange(verb_end(s) + 1, s.len() as int))
    } else {
        Seq::empty()
    }
}

/// Index of the first ASCII whitespace character of `line`, or its length.
pub fn token_end(line: &str) -> (r: usize)
    ensures
        r == verb_end(line@),
        r <= line@.len(),
{
    let len = line.unicode_len();
    let mut a: usize = 0;
    while a < len && !space_at(line, a)
        invariant
            len == line@.len(),
            0 <= a <= len,
            forall|i: int| 0 <= i < a ==> !is_space_char(#[trigger] line@[i]),
        decreases len - a,
    {
        a += 1;
    }
    proof {
        lemma_verb_end_from_scan(line@, a as int);
    }
    a
}

/// Splits a command line (already CRLF-stripped) into its upper-cased verb
/// and its trimmed argument.
pub fn split_command(line: &str) -> (r: (String, String))
    ensures
        r.0@ == verb_of(line@),
        r.1@ == argument_of(line@),
{
    let len = line.unicode_len();
    let a = token_end(line);
    let verb = upper_span(line, 0, a);
    let argument = if a < len {
        let rest = line.substring_char(a + 1, len);
        trim_copy(rest)
    } else {
        let empty = String::new();
        proof {
            assert(argument_of(line@) =~= Seq::<char>::empty());
        }
        empty
    };
    (verb, argument)
}

/// Whether a raw line (terminator included) is the DATA body terminator.
pub open spec fn is_term_line(l: Seq<char>) -> bool {
    l == ".\r\n"@ || l == ".\n"@
}

/// Whether a raw DATA line (terminator included) ends the message body.
pub fn is_data_terminator(line: &str) -> (r: bool)
    ensures
        r == is_term_line(line@),
{
    crate::text::str_eq(line, ".\r\n") || crate::text::str_eq(line, ".\n")
}

} // verus!
