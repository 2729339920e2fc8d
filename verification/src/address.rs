//! Address-argument parsing for MAIL FROM and RCPT TO.
//!
//! A MAIL argument must carry a case-insensitive `FROM:` prefix with a
//! non-empty value. A RCPT argument yields a recipient domain: after an
//! optional case-insensitive `TO:` prefix, the first whitespace-separated
//! token is stripped of surrounding angle brackets, split at its last `@`,
//! and the part after it — trimmed, with trailing `>` removed — is the
//! domain, lower-cased. A missing `@` or an empty domain is a syntax error.

use vstd::prelude::*;

use crate::command::{token_end, verb_end};
use crate::text::{
    leading_while, lemma_leading_while_from_scan, lemma_trailing_while_from_scan, lower_seq,
    lower_span, copy_span, trailing_while, trim_copy, trim_seq, upper_char, upper_char_exec,
    upper_seq,
};

verus! {

/// Whether `s` begins with `p`, compared up to ASCII case.
pub open spec fn has_ci_prefix(s: Seq<char>, p: Seq<char>) -> bool {
    s.len() >= p.len() && upper_seq(s.subrange(0, p.len() as int)) == upper_seq(p)
}

/// Whether `value` starts with `prefix`, ASCII-case-insensitively.
pub fn starts_with_case_insensitive(value: &str, prefix: &str) -> (r: bool)
    ensures
        r == has_ci_prefix(value@, prefix@),
{
    let plen = prefix.unicode_len();
    let vlen = value.unicode_len();
    if vlen < plen {
        return false;
    }
    let mut i: usize = 0;
    while i < plen
        invariant
            plen == prefix@.len(),
            vlen == value@.len(),
            plen <= vlen,
            0 <= i <= plen,
            forall|j: int| 0 <= j < i ==> upper_char(value@[j]) == upper_char(prefix@[j]),
        decreases plen - i,
    {
        let cv = upper_char_exec(value.get_char(i));
        let cp = upper_char_exec(prefix.get_char(i));
        if cv != cp {
            assert(upper_seq(value@.subrange(0, plen as int))[i as int] != upper_seq(
                prefix@,
            )[i as int]);
            return false;
        }
        i += 1;
    }
    proof {
        assert(upper_seq(value@.subrange(0, plen as int)) =~= upper_seq(prefix@));
    }
    true
}

/// Whether a MAIL argument has the form `FROM:<non-empty value>`.
pub open spec fn mail_from_ok(arg: Seq<char>) -> bool {
    let t = trim_seq(arg);
    has_ci_prefix(t, "FROM:"@) && trim_seq(t.subrange("FROM:"@.len() as int, t.len() as int)).len()
        > 0
}

/// Checks a MAIL argument for the case-insensitive `FROM:` prefix and a
/// non-empty value after it.
pub fn is_mail_from_argument(argument: &str) -> (r: bool)
    ensures
        r == mail_from_ok(argument@),
{
    proof {
        reveal_strlit("FROM:");
    }
    let t = trim_copy(argument);
    if !starts_with_case_insensitive(t.as_str(), "FROM:") {
        return false;
    }
    let tlen = t.as_str().unicode_len();
    let value = trim_copy_span(t.as_str(), 5, tlen);
    value.as_str().unicode_len() > 0
}

/// A fresh trimmed copy of the span `[from, to)` of `s`.
fn trim_copy_span(s: &str, from: usize, to: usize) -> (r: String)
    requires
        0 <= from <= to <= s@.len(),
    ensures
        r@ == trim_seq(s@.subrange(from as int, to as int)),
{
    let part = copy_span(s, from, to);
    trim_copy(part.as_str())
}

/// Whether `c` is an angle bracket.
pub open spec fn is_angle_char(c: char) -> bool {
    c == '<' || c == '>'
}

/// `s` with all leading and trailing angle brackets removed.
pub open spec fn trim_angle_seq(s: Seq<char>) -> Seq<char> {
    let p = |c: char| is_angle_char(c);
    if leading_while(s, p) == s.len() {
        Seq::empty()
    } else {
        s.subrange(leading_while(s, p), s.len() - trailing_while(s, p))
    }
}

/// `s` with all trailing `>` characters removed.
pub open spec fn strip_trailing_gt(s: Seq<char>) -> Seq<char> {
    s.subrange(0, s.len() - trailing_while(s, |c: char| c == '>'))
}

/// Index of the last `@` of `s`, or `-1` when there is none.
pub open spec fn last_at(s: Seq<char>) -> int
    decreases s.len(),
{
    if s.len() == 0 {
        -1
    } else if s.last() == '@' {
        s.len() - 1
    } else {
        last_at(s.drop_last())
    }
}

proof fn lemma_last_at_from_scan(s: Seq<char>, k: int)
    requires
        -1 <= k < s.len(),
        k >= 0 ==> s[k] == '@',
        forall|i: int| k < i < s.len() ==> s[i] != '@',
    ensures
        last_at(s) == k,
    decreases s.len(),
{
    if s.len() == 0 {
    } else if s.last() == '@' {
        assert(k == s.len() - 1);
    } else {
        lemma_last_at_from_scan(s.drop_last(), k);
    }
}

/// The recipient domain extracted from a RCPT argument, or `None` on a
/// syntax error.
pub open spec fn recipient_domain_of(arg: Seq<char>) -> Option<Seq<char>> {
    let t = trim_seq(arg);
    if t.len() == 0 {
        None
    } else {
        let v = if has_ci_prefix(t, "TO:"@) {
            t.subrange("TO:"@.len() as int, t.len() as int)
        } else {
            t
        };
        let w = trim_seq(v);
        if w.len() == 0 {
            None
        } else {
            let token = w.subrange(0, verb_end(w));
            let a = trim_angle_seq(token);
            if last_at(a) < 0 {
                None
            } else {
                let d = strip_trailing_gt(trim_seq(a.subrange(last_at(a) + 1, a.len() as int)));
                if d.len() == 0 {
                    None
                } else {
                    Some(lower_seq(d))
                }
            }
        }
    }
}

/// Extracts the recipient domain from a RCPT argument.
pub fn parse_recipient_domain(argument: &str) -> (r: Option<String>)
    ensures
        r is Some <==> recipient_domain_of(argument@) is Some,
        r matches Some(d) ==> Some(d@) == recipient_domain_of(argument@),
{
    proof {
        reveal_strlit("TO:");
    }
    let t = trim_copy(argument);
    let tlen = t.as_str().unicode_len();
    if tlen == 0 {
        return None;
    }
    let v = if starts_with_case_insensitive(t.as_str(), "TO:") {
        copy_span(t.as_str(), 3, tlen)
    } else {
        t
    };
    let w = trim_copy(v.as_str());
    let wlen = w.as_str().unicode_len();
    if wlen == 0 {
        return None;
    }
    let te = token_end(w.as_str());
    let token = copy_span(w.as_str(), 0, te);
    let a = trim_angle_copy(token.as_str());
    let alen = a.as_str().unicode_len();

    // Scan for the last '@' of the bracket-stripped address token.
    let mut k: usize = alen;
    while k > 0 && !at_char_at(a.as_str(), k - 1)
        invariant
            alen == a@.len(),
            0 <= k <= alen,
            forall|i: int| k <= i < alen ==> a@[i] != '@',
        decreases k,
    {
        k -= 1;
    }
    if k == 0 {
        proof {
            lemma_last_at_from_scan(a@, -1);
        }
        return None;
    }
    proof {
        lemma_last_at_from_scan(a@, k - 1 as int);
    }
    let after = trim_copy_span(a.as_str(), k, alen);
    let after_len = after.as_str().unicode_len();

    // Strip trailing '>' characters.
    let mut b: usize = after_len;
    while b > 0 && gt_char_at(after.as_str(), b - 1)
        invariant
            after_len == after@.len(),
            0 <= b <= after_len,
            forall|i: int| b <= i < after_len ==> after@[i] == '>',
        decreases b,
    {
        b -= 1;
    }
    proof {
        lemma_trailing_while_from_scan(after@, |c: char| c == '>', b as int);
        assert(strip_trailing_gt(after@) == after@.subrange(0, b as int));
    }
    if b == 0 {
        proof {
            assert(strip_trailing_gt(after@) =~= Seq::<char>::empty());
        }
        return None;
    }
    Some(lower_span(after.as_str(), 0, b))
}

/// Whether the character of `s` at index `i` is `@`.
fn at_char_at(s: &str, i: usize) -> (r: bool)
    requires
        i < s@.len(),
    ensures
        r == (s@[i as int] == '@'),
{
    s.get_char(i) == '@'
}

/// Whether the character of `s` at index `i` is `>`.
fn gt_char_at(s: &str, i: usize) -> (r: bool)
    requires
        i < s@.len(),
    ensures
        r == (s@[i as int] == '>'),
{
    s.get_char(i) == '>'
}

/// Whether the character of `s` at index `i` is an angle bracket.
fn angle_char_at(s: &str, i: usize) -> (r: bool)
    requires
        i < s@.len(),
    ensures
        r == is_angle_char(s@[i as int]),
{
    let c = s.get_char(i);
    c == '<' || c == '>'
}

/// A fresh copy of `s` with all leading and trailing angle brackets removed.
fn trim_angle_copy(s: &str) -> (r: String)
    ensures
        r@ == trim_angle_seq(s@),
{
    let len = s.unicode_len();
    let ghost p = |c: char| is_angle_char(c);
    let mut a: usize = 0;
    while a < len && angle_char_at(s, a)
        invariant
            len == s@.len(),
            0 <= a <= len,
            forall|i: int| 0 <= i < a ==> is_angle_char(#[trigger] s@[i]),
        decreases len - a,
    {
        a += 1;
    }
    proof {
        lemma_leading_while_from_scan(s@, p, a as int);
    }
    if a == len {
        let out = String::new();
        proof {
            assert(trim_angle_seq(s@) =~= Seq::<char>::empty());
        }
        return out;
    }
    let mut b: usize = len;
    while b > a && angle_char_at(s, b - 1)
        invariant
            len == s@.len(),
            a <= b <= len,
            a < len,
            !is_angle_char(s@[a as int]),
            forall|i: int| b <= i < len ==> is_angle_char(#[trigger] s@[i]),
        decreases b,
    {
        b -= 1;
    }
    proof {
        lemma_trailing_while_from_scan(s@, p, b as int);
    }
    copy_span(s, a, b)
}

} // verus!
