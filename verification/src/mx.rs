//! MX candidates and their deterministic ordering.
//!
//! The resolver hands back candidates in arbitrary order; before failover the
//! session sorts them by preference, breaking ties by the exchange name in
//! lexicographic order. The sort is stable, so its result — and therefore the
//! MX selected by the linear failover scan — depends only on which candidates
//! were returned, not on the order the resolver listed them in.

use vstd::prelude::*;
use vstd::multiset::Multiset;
use vstd::seq_lib::lemma_sorted_unique;
use vstd::relations::{sorted_by, total_ordering};

use crate::config::ConfigError;
use crate::text::is_blank_seq;

verus! {

broadcast use vstd::seq_lib::group_to_multiset_ensures;

/// One MX record resolved for a recipient domain.
#[derive(Debug)]
pub struct MxCandidate {
    /// The record's preference; lower is tried first.
    pub preference: u16,
    /// The exchange host name; never blank.
    pub exchange: String,
    /// The resolved endpoint, as `host:port` text the embedding program dials.
    pub address: String,
}

impl MxCandidate {
    /// Builds a candidate, rejecting a blank exchange name.
    pub fn new(preference: u16, exchange: String, address: String) -> (r: Result<
        MxCandidate,
        ConfigError,
    >)
        ensures
            r matches Ok(c) ==> c.preference == preference && c.exchange@ == exchange@
                && c.address@ == address@ && !is_blank_seq(exchange@),
            r matches Err(e) ==> is_blank_seq(exchange@) && e.message@
                == "mx exchange must not be empty"@,
    {
        if crate::text::is_blank(exchange.as_str()) {
            let mut message = String::new();
            message.append("mx exchange must not be empty");
            return Err(ConfigError { message });
        }
        Ok(MxCandidate { preference, exchange, address })
    }
}

impl Clone for MxCandidate {
    /// An exact copy of the candidate.
    fn clone(&self) -> (r: MxCandidate)
        ensures
            r == *self,
    {
        MxCandidate {
            preference: self.preference,
            exchange: self.exchange.clone(),
            address: self.address.clone(),
        }
    }
}

/// A failed MX resolution; always a temporary condition.
#[derive(Debug)]
pub enum MxResolutionError {
    Temporary(String),
}

impl MxResolutionError {
    /// The human-readable reason carried by the error.
    pub fn message(&self) -> (r: String)
        ensures
            self matches MxResolutionError::Temporary(m) ==> r@ == m@,
    {
        match self {
            MxResolutionError::Temporary(m) => m.clone(),
        }
    }
}

/// The text under which the session reports a resolver failure, as it would
/// report any other upstream I/O failure.
pub fn mx_resolution_error_to_io(error: MxResolutionError) -> (r: String)
    ensures
        error matches MxResolutionError::Temporary(m) ==> r@ == m@,
{
    match error {
        MxResolutionError::Temporary(m) => m,
    }
}

/// The MX lookup capability the outbound listener is wired with.
pub trait MxResolver {
    /// Resolves the MX candidates of a recipient domain.
    fn resolve(&self, recipient_domain: &str) -> Result<Vec<MxCandidate>, MxResolutionError>;
}

/// A resolver that is always unavailable: a safe default, not a fallback.
pub struct NoopMxResolver;

impl NoopMxResolver {
    /// The one answer this resolver ever gives, for every domain: the
    /// temporary unavailable error and never a candidate.
    pub fn unavailable(&self) -> (r: Result<Vec<MxCandidate>, MxResolutionError>)
        ensures
            r matches Err(e) && (e matches MxResolutionError::Temporary(m) && m@
                == "no MX resolver configured"@),
    {
        Err(MxResolutionError::Temporary(String::from_str("no MX resolver configured")))
    }
}

impl MxResolver for NoopMxResolver {
    fn resolve(&self, recipient_domain: &str) -> Result<Vec<MxCandidate>, MxResolutionError> {
        self.unavailable()
    }
}

/// Strict lexicographic order on character sequences.
pub open spec fn lex_lt(a: Seq<char>, b: Seq<char>) -> bool
    decreases a.len(),
{
    if b.len() == 0 {
        false
    } else if a.len() == 0 {
        true
    } else if a[0] != b[0] {
        a[0] < b[0]
    } else {
        lex_lt(a.drop_first(), b.drop_first())
    }
}

/// Strict candidate order: by preference, then by exchange name.
pub open spec fn key_lt(a: MxCandidate, b: MxCandidate) -> bool {
    a.preference < b.preference || (a.preference == b.preference && lex_lt(a.exchange@, b.exchange@))
}

/// Candidate key equality: equal preference and exchange name.
pub open spec fn key_eq(a: MxCandidate, b: MxCandidate) -> bool {
    a.preference == b.preference && a.exchange@ == b.exchange@
}

/// Non-strict candidate order on (preference, exchange).
pub open spec fn key_le(a: MxCandidate, b: MxCandidate) -> bool {
    key_lt(a, b) || key_eq(a, b)
}

/// The candidate order as a relation value, for `sorted_by`.
pub open spec fn cand_le_fn() -> spec_fn(MxCandidate, MxCandidate) -> bool {
    |a: MxCandidate, b: MxCandidate| key_le(a, b)
}

proof fn lemma_lex_irrefl(a: Seq<char>)
    ensures
        !lex_lt(a, a),
    decreases a.len(),
{
    if a.len() > 0 {
        lemma_lex_irrefl(a.drop_first());
    }
}

proof fn lemma_lex_connected(a: Seq<char>, b: Seq<char>)
    ensures
        !lex_lt(a, b) && !lex_lt(b, a) ==> a == b,
    decreases a.len(),
{
    if a.len() > 0 && b.len() > 0 && a[0] == b[0] {
        lemma_lex_connected(a.drop_first(), b.drop_first());
        if !lex_lt(a, b) && !lex_lt(b, a) {
            assert(a.drop_first() == b.drop_first());
            assert(a =~= b) by {
                assert(forall|i: int|
                    1 <= i < a.len() ==> a[i] == a.drop_first()[i - 1] && b[i] == b.drop_first()[i
                        - 1]);
            }
        }
    }
}

proof fn lemma_lex_trans(a: Seq<char>, b: Seq<char>, c: Seq<char>)
    ensures
        lex_lt(a, b) && lex_lt(b, c) ==> lex_lt(a, c),
    decreases a.len() + b.len() + c.len(),
{
    if a.len() > 0 && b.len() > 0 && c.len() > 0 {
        lemma_lex_trans(a.drop_first(), b.drop_first(), c.drop_first());
    }
}

/// Key facts about the candidate order: `key_lt` is a strict order whose
/// incomparable pairs are exactly the key-equal pairs.
pub proof fn lemma_key_order(a: MxCandidate, b: MxCandidate, c: MxCandidate)
    ensures
        !(key_lt(a, b) && key_lt(b, a)),
        !key_lt(a, b) && !key_lt(b, a) ==> key_eq(a, b),
        key_lt(a, b) && key_lt(b, c) ==> key_lt(a, c),
        key_le(a, b) && key_lt(b, c) ==> key_lt(a, c),
        key_lt(a, b) && key_le(b, c) ==> key_lt(a, c),
{
    lemma_lex_irrefl(a.exchange@);
    lemma_lex_irrefl(b.exchange@);
    lemma_lex_connected(a.exchange@, b.exchange@);
    lemma_lex_connected(b.exchange@, a.exchange@);
    lemma_lex_trans(a.exchange@, b.exchange@, c.exchange@);
    lemma_lex_trans(b.exchange@, a.exchange@, c.exchange@);
    lemma_lex_trans(a.exchange@, c.exchange@, b.exchange@);
    if lex_lt(a.exchange@, b.exchange@) && lex_lt(b.exchange@, a.exchange@) {
        lemma_lex_trans(a.exchange@, b.exchange@, a.exchange@);
    }
}

/// Compares two candidates under the strict (preference, exchange) order.
pub fn cand_lt(a: &MxCandidate, b: &MxCandidate) -> (r: bool)
    ensures
        r == key_lt(*a, *b),
{
    if a.preference < b.preference {
        return true;
    }
    if a.preference > b.preference {
        return false;
    }
    str_lex_lt(a.exchange.as_str(), b.exchange.as_str())
}

/// Compares two strings under strict lexicographic character order.
fn str_lex_lt(a: &str, b: &str) -> (r: bool)
    ensures
        r == lex_lt(a@, b@),
{
    let alen = a.unicode_len();
    let blen = b.unicode_len();
    let mut i: usize = 0;
    proof {
        assert(a@.skip(0) =~= a@);
        assert(b@.skip(0) =~= b@);
    }
    loop
        invariant
            alen == a@.len(),
            blen == b@.len(),
            0 <= i <= alen,
            0 <= i <= blen,
            forall|j: int| 0 <= j < i ==> a@[j] == b@[j],
            lex_lt(a@, b@) == lex_lt(a@.skip(i as int), b@.skip(i as int)),
        decreases alen - i,
    {
        if i >= blen {
            assert(b@.skip(i as int).len() == 0);
            return false;
        }
        if i >= alen {
            assert(a@.skip(i as int).len() == 0 && b@.skip(i as int).len() > 0);
            return true;
        }
        let ca = a.get_char(i);
        let cb = b.get_char(i);
        proof {
            let sa = a@.skip(i as int);
            let sb = b@.skip(i as int);
            assert(sa[0] == a@[i as int] && sb[0] == b@[i as int]);
            assert(sa.drop_first() =~= a@.skip(i + 1 as int));
            assert(sb.drop_first() =~= b@.skip(i + 1 as int));
        }
        if ca != cb {
            return ca < cb;
        }
        i += 1;
    }
}

/// Stable insertion of `x` into a run already sorted by the candidate key:
/// `x` lands after every element it does not strictly precede.
pub open spec fn insert_stable(sorted: Seq<MxCandidate>, x: MxCandidate) -> Seq<MxCandidate>
    decreases sorted.len(),
{
    if sorted.len() == 0 {
        seq![x]
    } else if key_lt(x, sorted.last()) {
        insert_stable(sorted.drop_last(), x).push(sorted.last())
    } else {
        sorted.push(x)
    }
}

/// The stable sort of a candidate list under (preference, exchange).
pub open spec fn stable_sort_spec(s: Seq<MxCandidate>) -> Seq<MxCandidate>
    decreases s.len(),
{
    if s.len() == 0 {
        Seq::empty()
    } else {
        insert_stable(stable_sort_spec(s.drop_last()), s.last())
    }
}

proof fn lemma_insert_stable_at(sorted: Seq<MxCandidate>, x: MxCandidate, pos: int)
    requires
        0 <= pos <= sorted.len(),
        forall|j: int| pos <= j < sorted.len() ==> key_lt(x, #[trigger] sorted[j]),
        pos > 0 ==> !key_lt(x, sorted[pos - 1]),
    ensures
        insert_stable(sorted, x) == sorted.subrange(0, pos) + seq![x] + sorted.subrange(
            pos,
            sorted.len() as int,
        ),
    decreases sorted.len(),
{
    if sorted.len() == 0 {
        assert(insert_stable(sorted, x) =~= sorted.subrange(0, pos) + seq![x] + sorted.subrange(
            pos,
            sorted.len() as int,
        ));
    } else if pos == sorted.len() {
        assert(insert_stable(sorted, x) == sorted.push(x));
        assert(sorted.push(x) =~= sorted.subrange(0, pos) + seq![x] + sorted.subrange(
            pos,
            sorted.len() as int,
        ));
    } else {
        assert(key_lt(x, sorted.last()));
        let t = sorted.drop_last();
        lemma_insert_stable_at(t, x, pos);
        assert(t.subrange(0, pos) =~= sorted.subrange(0, pos));
        assert(insert_stable(sorted, x) == insert_stable(t, x).push(sorted.last()));
        assert((t.subrange(0, pos) + seq![x] + t.subrange(pos, t.len() as int)).push(sorted.last())
            =~= sorted.subrange(0, pos) + seq![x] + sorted.subrange(pos, sorted.len() as int));
    }
}

/// The stable sort is sorted under `key_le`.
pub proof fn lemma_stable_sort_sorted(s: Seq<MxCandidate>)
    ensures
        sorted_by(stable_sort_spec(s), cand_le_fn()),
        stable_sort_spec(s).len() == s.len(),
    decreases s.len(),
{
    if s.len() > 0 {
        lemma_stable_sort_sorted(s.drop_last());
        lemma_insert_stable_sorted(stable_sort_spec(s.drop_last()), s.last());
    }
}

proof fn lemma_insert_stable_sorted(sorted: Seq<MxCandidate>, x: MxCandidate)
    requires
        sorted_by(sorted, cand_le_fn()),
    ensures
        sorted_by(insert_stable(sorted, x), cand_le_fn()),
        insert_stable(sorted, x).len() == sorted.len() + 1,
    decreases sorted.len(),
{
    let le = cand_le_fn();
    if sorted.len() == 0 {
    } else if key_lt(x, sorted.last()) {
        let t = sorted.drop_last();
        assert(sorted_by(t, le)) by {
            assert(forall|i: int, j: int| 0 <= i < j < t.len() ==> le(t[i], t[j]));
        }
        lemma_insert_stable_sorted(t, x);
        let r = insert_stable(t, x).push(sorted.last());
        assert(forall|i: int, j: int| 0 <= i < j < r.len() ==> #[trigger] le(r[i], r[j])) by {
            assert forall|i: int, j: int| 0 <= i < j < r.len() implies #[trigger] le(r[i], r[j]) by {
                if j < r.len() - 1 {
                    assert(le(insert_stable(t, x)[i], insert_stable(t, x)[j]));
                } else {
                    // Every element of the recursive insert is key_le the old last.
                    lemma_insert_stable_members(t, x, i);
                    assert(r[j] == sorted.last());
                }
            }
        }
    } else {
        // x lands at the end; key_le(last, x) by connectedness.
        lemma_key_order(x, sorted.last(), x);
        let r = sorted.push(x);
        assert(forall|i: int, j: int| 0 <= i < j < r.len() ==> #[trigger] le(r[i], r[j])) by {
            assert forall|i: int, j: int| 0 <= i < j < r.len() implies #[trigger] le(r[i], r[j]) by {
                if j == r.len() - 1 {
                    if i < sorted.len() - 1 {
                        assert(le(sorted[i], sorted.last()));
                    }
                    lemma_key_order(sorted[i], sorted.last(), x);
                }
            }
        }
    }
}

/// Each element of `insert_stable(t, x)` is either `x` or an element of `t`,
/// and every element of `t` is `key_le` anything `key_lt`-above `t`'s members.
proof fn lemma_insert_stable_members(t: Seq<MxCandidate>, x: MxCandidate, i: int)
    requires
        0 <= i < insert_stable(t, x).len(),
    ensures
        insert_stable(t, x)[i] == x || exists|j: int|
            0 <= j < t.len() && insert_stable(t, x)[i] == t[j],
    decreases t.len(),
{
    if t.len() == 0 {
    } else if key_lt(x, t.last()) {
        if i < insert_stable(t, x).len() - 1 {
            lemma_insert_stable_members(t.drop_last(), x, i);
            if insert_stable(t, x)[i] != x {
                let j = choose|j: int|
                    0 <= j < t.drop_last().len() && insert_stable(t.drop_last(), x)[i] == t.drop_last()[j];
                assert(insert_stable(t, x)[i] == t[j]);
            }
        } else {
            assert(insert_stable(t, x)[i] == t[t.len() - 1]);
        }
    } else {
        if i < t.len() {
            assert(insert_stable(t, x)[i] == t[i]);
        }
    }
}

/// The stable sort keeps exactly the input candidates.
pub proof fn lemma_stable_sort_multiset(s: Seq<MxCandidate>)
    ensures
        stable_sort_spec(s).to_multiset() == s.to_multiset(),
    decreases s.len(),
{
    if s.len() > 0 {
        lemma_stable_sort_multiset(s.drop_last());
        lemma_insert_stable_multiset(stable_sort_spec(s.drop_last()), s.last());
        assert(s =~= s.drop_last().push(s.last()));
        assert(s.drop_last().push(s.last()).to_multiset() =~= s.drop_last().to_multiset().insert(
            s.last(),
        ));
    }
}

proof fn lemma_insert_stable_multiset(sorted: Seq<MxCandidate>, x: MxCandidate)
    ensures
        insert_stable(sorted, x).to_multiset() == sorted.to_multiset().insert(x),
    decreases sorted.len(),
{
    if sorted.len() == 0 {
        assert(seq![x] =~= Seq::<MxCandidate>::empty().push(x));
        assert(Seq::<MxCandidate>::empty().push(x).to_multiset() =~= Multiset::empty().insert(x));
    } else if key_lt(x, sorted.last()) {
        let t = sorted.drop_last();
        lemma_insert_stable_multiset(t, x);
        assert(insert_stable(t, x).push(sorted.last()).to_multiset() =~= insert_stable(
            t,
            x,
        ).to_multiset().insert(sorted.last()));
        assert(sorted =~= t.push(sorted.last()));
        assert(t.push(sorted.last()).to_multiset() =~= t.to_multiset().insert(sorted.last()));
        assert(t.to_multiset().insert(x).insert(sorted.last()) =~= t.to_multiset().insert(
            sorted.last(),
        ).insert(x));
    } else {
        assert(sorted.push(x).to_multiset() =~= sorted.to_multiset().insert(x));
    }
}

/// Sorts MX candidates by (preference ascending, exchange ascending), stably.
pub fn sort_candidates(v: &Vec<MxCandidate>) -> (r: Vec<MxCandidate>)
    ensures
        r@ == stable_sort_spec(v@),
{
    let mut out: Vec<MxCandidate> = Vec::new();
    let mut k: usize = 0;
    proof {
        assert(v@.subrange(0, 0) =~= Seq::<MxCandidate>::empty());
    }
    while k < v.len()
        invariant
            0 <= k <= v.len(),
            out@ == stable_sort_spec(v@.subrange(0, k as int)),
        decreases v.len() - k,
    {
        let x = v[k].clone();
        let mut pos: usize = out.len();
        while pos > 0 && cand_lt(&x, &out[pos - 1])
            invariant
                0 <= pos <= out.len(),
                forall|j: int| pos <= j < out.len() ==> key_lt(x, #[trigger] out@[j]),
            decreases pos,
        {
            pos -= 1;
        }
        let ghost pre = out@;
        out.insert(pos, x);
        proof {
            lemma_insert_stable_at(pre, x, pos as int);
            assert(pre.insert(pos as int, x) =~= pre.subrange(0, pos as int) + seq![x]
                + pre.subrange(pos as int, pre.len() as int));
            assert(v@.subrange(0, (k + 1) as int).drop_last() =~= v@.subrange(0, k as int));
            assert(v@.subrange(0, (k + 1) as int).last() == v@[k as int]);
        }
        k += 1;
    }
    proof {
        assert(v@.subrange(0, v@.len() as int) =~= v@);
    }
    out
}


/// The (preference, exchange) keys of a candidate run, in order.
pub open spec fn keys_of(s: Seq<MxCandidate>) -> Seq<(u16, Seq<char>)> {
    s.map_values(|c: MxCandidate| (c.preference, c.exchange@))
}

/// Non-strict lexicographic order on character sequences.
pub open spec fn lex_le(a: Seq<char>, b: Seq<char>) -> bool {
    lex_lt(a, b) || a == b
}

/// Non-strict order on candidate keys, as a relation value.
pub open spec fn pair_le_fn() -> spec_fn((u16, Seq<char>), (u16, Seq<char>)) -> bool {
    |a: (u16, Seq<char>), b: (u16, Seq<char>)|
        a.0 < b.0 || (a.0 == b.0 && lex_le(a.1, b.1))
}

proof fn lemma_pair_le_total()
    ensures
        total_ordering(pair_le_fn()),
{
    let le = pair_le_fn();
    assert forall|a: (u16, Seq<char>), b: (u16, Seq<char>)| #[trigger] le(a, b) || #[trigger]
        le(b, a) by {
        lemma_lex_connected(a.1, b.1);
    }
    assert forall|a: (u16, Seq<char>), b: (u16, Seq<char>)| #[trigger] le(a, b) && #[trigger]
        le(b, a) implies a == b by {
        if lex_lt(a.1, b.1) && lex_lt(b.1, a.1) {
            lemma_lex_trans(a.1, b.1, a.1);
            lemma_lex_irrefl(a.1);
        }
        if a.0 == b.0 && a.1 == b.1 {
            assert(a =~~= b);
        }
    }
    assert forall|a: (u16, Seq<char>), b: (u16, Seq<char>), c: (u16, Seq<char>)|
        #[trigger] le(a, b) && #[trigger] le(b, c) implies le(a, c) by {
        lemma_lex_trans(a.1, b.1, c.1);
    }
    assert forall|a: (u16, Seq<char>)| #[trigger] le(a, a) by {}
}

/// The sorted candidate run is sorted at the key level too.
proof fn lemma_keys_sorted(s: Seq<MxCandidate>)
    requires
        sorted_by(s, cand_le_fn()),
    ensures
        sorted_by(keys_of(s), pair_le_fn()),
{
    let keys = keys_of(s);
    assert forall|i: int, j: int| 0 <= i < j < keys.len() implies #[trigger] pair_le_fn()(
        keys[i],
        keys[j],
    ) by {
        assert(cand_le_fn()(s[i], s[j]));
        lemma_lex_irrefl(s[i].exchange@);
    }
}

/// Mapping a function over two sequences with the same elements yields
/// sequences with the same elements.
proof fn lemma_map_values_multiset<A, B>(s1: Seq<A>, s2: Seq<A>, f: spec_fn(A) -> B)
    requires
        s1.to_multiset() == s2.to_multiset(),
    ensures
        s1.map_values(f).to_multiset() == s2.map_values(f).to_multiset(),
    decreases s1.len(),
{
    s1.to_multiset_ensures();
    s2.to_multiset_ensures();
    if s1.len() == 0 {
        assert(s2.len() == 0);
        assert(s1.map_values(f).to_multiset() =~= s2.map_values(f).to_multiset());
    } else {
        let x = s1[0];
        assert(s1.to_multiset().contains(x)) by {
            assert(s1.contains(x));
        }
        assert(s2.contains(x));
        let j = choose|j: int| 0 <= j < s2.len() && s2[j] == x;
        let t1 = s1.remove(0);
        let t2 = s2.remove(j);
        assert(t1.to_multiset() == t2.to_multiset()) by {
            assert(t1.to_multiset() =~= s1.to_multiset().remove(x));
            assert(t2.to_multiset() =~= s2.to_multiset().remove(x));
        }
        lemma_map_values_multiset(t1, t2, f);
        assert(t1.map_values(f) =~= s1.map_values(f).remove(0));
        assert(t2.map_values(f) =~= s2.map_values(f).remove(j));
        s1.map_values(f).to_multiset_ensures();
        s2.map_values(f).to_multiset_ensures();
        assert(s1.map_values(f).remove(0).to_multiset() =~= s1.map_values(f).to_multiset().remove(
            f(x),
        ));
        assert(s2.map_values(f).remove(j).to_multiset() =~= s2.map_values(f).to_multiset().remove(
            f(x),
        ));
        assert(s1.map_values(f).to_multiset() =~= s2.map_values(f).to_multiset()) by {
            let m1 = s1.map_values(f).to_multiset();
            let m2 = s2.map_values(f).to_multiset();
            assert(m1.remove(f(x)) == m2.remove(f(x)));
            assert(m1.contains(f(x))) by {
                assert(s1.map_values(f)[0] == f(x));
                assert(s1.map_values(f).contains(f(x)));
            }
            assert(m2.contains(f(x))) by {
                assert(s2.map_values(f)[j] == f(x));
                assert(s2.map_values(f).contains(f(x)));
            }
            assert(forall|y: B| #[trigger] m1.count(y) == m2.count(y)) by {
                assert forall|y: B| true implies #[trigger] m1.count(y) == m2.count(y) by {
                    assert(m1.remove(f(x)).count(y) == m2.remove(f(x)).count(y));
                }
            }
        }
    }
}

/// MX ordering is canonical: for any two permutations of one candidate set,
/// the sorted runs carry the same (preference, exchange) keys at every
/// position.
pub proof fn lemma_sort_keys_canonical(s1: Seq<MxCandidate>, s2: Seq<MxCandidate>)
    requires
        s1.to_multiset() == s2.to_multiset(),
    ensures
        keys_of(stable_sort_spec(s1)) == keys_of(stable_sort_spec(s2)),
{
    let r1 = stable_sort_spec(s1);
    let r2 = stable_sort_spec(s2);
    lemma_stable_sort_sorted(s1);
    lemma_stable_sort_sorted(s2);
    lemma_stable_sort_multiset(s1);
    lemma_stable_sort_multiset(s2);
    lemma_keys_sorted(r1);
    lemma_keys_sorted(r2);
    lemma_map_values_multiset(r1, r2, |c: MxCandidate| (c.preference, c.exchange@));
    lemma_pair_le_total();
    lemma_sorted_unique(keys_of(r1), keys_of(r2), pair_le_fn());
    assert(keys_of(r1) =~= keys_of(r2));
}

/// The first candidate of a run that `ok` accepts, scanning in order: the
/// failover scan's selection, with each candidate's connect outcome given
/// by `ok`.
pub open spec fn first_success(s: Seq<MxCandidate>, ok: spec_fn(MxCandidate) -> bool) -> Option<
    MxCandidate,
>
    decreases s.len(),
{
    if s.len() == 0 {
        None
    } else if ok(s[0]) {
        Some(s[0])
    } else {
        first_success(s.drop_first(), ok)
    }
}

proof fn lemma_first_success_props(s: Seq<MxCandidate>, ok: spec_fn(MxCandidate) -> bool)
    ensures
        first_success(s, ok) matches Some(c) ==> ok(c) && exists|i: int|
            0 <= i < s.len() && s[i] == c && forall|j: int| 0 <= j < i ==> !ok(#[trigger] s[j]),
        first_success(s, ok) is None ==> forall|i: int| 0 <= i < s.len() ==> !ok(#[trigger] s[i]),
    decreases s.len(),
{
    if s.len() == 0 {
    } else if ok(s[0]) {
        assert(s[0] == s[0] && forall|j: int| 0 <= j < 0 ==> !ok(#[trigger] s[j]));
    } else {
        let t = s.drop_first();
        lemma_first_success_props(t, ok);
        if first_success(s, ok) is Some {
            let c = first_success(s, ok).unwrap();
            let i = choose|i: int|
                0 <= i < t.len() && t[i] == c && forall|j: int| 0 <= j < i ==> !ok(#[trigger] t[j]);
            assert(s[i + 1] == c);
            assert(forall|j: int| 0 <= j < i + 1 ==> !ok(#[trigger] s[j])) by {
                assert(forall|j: int| 1 <= j < i + 1 ==> s[j] == t[j - 1]);
            }
        } else {
            assert(forall|i: int| 1 <= i < s.len() ==> s[i] == t[i - 1]);
        }
    }
}

/// Failover selection is permutation-invariant in full generality: with each
/// candidate's connect outcome a function of the whole candidate, the scan
/// over the stably sorted run succeeds for one permutation of the resolved
/// set exactly when it succeeds for another, and the selected candidates
/// carry the same (preference, exchange) key — so the selected MX is the
/// same. (Only the key is canonical: duplicate keys with different endpoint
/// addresses keep their resolver order, so the address may differ.)
pub proof fn lemma_failover_selection_canonical(
    s1: Seq<MxCandidate>,
    s2: Seq<MxCandidate>,
    ok: spec_fn(MxCandidate) -> bool,
)
    requires
        s1.to_multiset() == s2.to_multiset(),
    ensures
        (first_success(stable_sort_spec(s1), ok) is Some) == (first_success(
            stable_sort_spec(s2),
            ok,
        ) is Some),
        first_success(stable_sort_spec(s1), ok) matches Some(c1) ==> (first_success(
            stable_sort_spec(s2),
            ok,
        ) matches Some(c2) ==> key_eq(c1, c2)),
{
    let r1 = stable_sort_spec(s1);
    let r2 = stable_sort_spec(s2);
    lemma_stable_sort_sorted(s1);
    lemma_stable_sort_sorted(s2);
    lemma_stable_sort_multiset(s1);
    lemma_stable_sort_multiset(s2);
    lemma_first_success_props(r1, ok);
    lemma_first_success_props(r2, ok);
    lemma_first_success_exists(r1, r2, ok);
    lemma_first_success_exists(r2, r1, ok);
    if first_success(r1, ok) is Some && first_success(r2, ok) is Some {
        let c1 = first_success(r1, ok).unwrap();
        let c2 = first_success(r2, ok).unwrap();
        lemma_first_accepted_le(r1, r2, ok, c1, c2);
        lemma_first_accepted_le(r2, r1, ok, c2, c1);
        lemma_key_order(c1, c2, c1);
    }
}

/// An accepted candidate in one run yields one in any run with the same
/// elements.
proof fn lemma_first_success_exists(
    r1: Seq<MxCandidate>,
    r2: Seq<MxCandidate>,
    ok: spec_fn(MxCandidate) -> bool,
)
    requires
        r1.to_multiset() == r2.to_multiset(),
    ensures
        (first_success(r1, ok) is Some) ==> (first_success(r2, ok) is Some),
{
    lemma_first_success_props(r1, ok);
    lemma_first_success_props(r2, ok);
    if first_success(r1, ok) is Some {
        let c = first_success(r1, ok).unwrap();
        assert(r1.to_multiset().contains(c)) by {
            let i = choose|i: int| 0 <= i < r1.len() && r1[i] == c;
            assert(r1.contains(c));
        }
        assert(r2.contains(c));
        let j = choose|j: int| 0 <= j < r2.len() && r2[j] == c;
        if first_success(r2, ok) is None {
            assert(!ok(r2[j]));
        }
    }
}

/// The first accepted candidate of a sorted run is `key_le` the first
/// accepted candidate of any sorted run with the same elements.
proof fn lemma_first_accepted_le(
    r1: Seq<MxCandidate>,
    r2: Seq<MxCandidate>,
    ok: spec_fn(MxCandidate) -> bool,
    c1: MxCandidate,
    c2: MxCandidate,
)
    requires
        sorted_by(r1, cand_le_fn()),
        r1.to_multiset() == r2.to_multiset(),
        first_success(r1, ok) == Some(c1),
        first_success(r2, ok) == Some(c2),
    ensures
        key_le(c1, c2),
{
    lemma_first_success_props(r1, ok);
    lemma_first_success_props(r2, ok);
    let i1 = choose|i: int|
        0 <= i < r1.len() && r1[i] == c1 && forall|j: int| 0 <= j < i ==> !ok(#[trigger] r1[j]);
    // c2 stands somewhere in r1, and not before i1 since it is accepted.
    assert(r2.to_multiset().contains(c2)) by {
        let k2 = choose|k: int| 0 <= k < r2.len() && r2[k] == c2;
        assert(r2.contains(c2));
    }
    assert(r1.contains(c2));
    let k = choose|k: int| 0 <= k < r1.len() && r1[k] == c2;
    assert(k >= i1) by {
        if k < i1 {
            assert(!ok(r1[k]));
        }
    }
    if k == i1 {
        lemma_key_order(c1, c2, c1);
        assert(c1 == c2);
    } else {
        assert(cand_le_fn()(r1[i1], r1[k]));
    }
}

/// The candidates carrying exactly the key `(pref, exchange)`.
pub open spec fn same_key_fn(pref: u16, exchange: Seq<char>) -> spec_fn(MxCandidate) -> bool {
    |c: MxCandidate| c.preference == pref && c.exchange@ == exchange
}

proof fn lemma_insert_stable_filter(
    sorted: Seq<MxCandidate>,
    x: MxCandidate,
    pref: u16,
    exchange: Seq<char>,
)
    ensures
        insert_stable(sorted, x).filter(same_key_fn(pref, exchange)) == (
        if same_key_fn(pref, exchange)(x) {
            sorted.filter(same_key_fn(pref, exchange)).push(x)
        } else {
            sorted.filter(same_key_fn(pref, exchange))
        }),
    decreases sorted.len(),
{
    reveal(Seq::filter);
    let p = same_key_fn(pref, exchange);
    if sorted.len() == 0 {
        assert(seq![x].drop_last() =~= Seq::<MxCandidate>::empty());
        assert(sorted.filter(p) == sorted);
        assert(sorted =~= Seq::<MxCandidate>::empty());
        if p(x) {
            assert(seq![x].filter(p) =~= Seq::<MxCandidate>::empty().filter(p).push(x));
            assert(sorted.filter(p).push(x) =~= Seq::<MxCandidate>::empty().filter(p).push(x));
        } else {
            assert(seq![x].filter(p) =~= sorted.filter(p));
        }
    } else if key_lt(x, sorted.last()) {
        let t = sorted.drop_last();
        lemma_insert_stable_filter(t, x, pref, exchange);
        let r = insert_stable(t, x).push(sorted.last());
        assert(insert_stable(sorted, x) == r);
        assert(r.drop_last() =~= insert_stable(t, x));
        if p(x) {
            // The old last is strictly above x's key, so it is not in the class.
            assert(!p(sorted.last())) by {
                if p(sorted.last()) {
                    assert(key_eq(x, sorted.last()));
                    lemma_key_order(x, sorted.last(), x);
                }
            }
            assert(r.filter(p) == insert_stable(t, x).filter(p));
            assert(sorted.filter(p) == t.filter(p));
        } else {
            if p(sorted.last()) {
                assert(r.filter(p) == insert_stable(t, x).filter(p).push(sorted.last()));
                assert(sorted.filter(p) == t.filter(p).push(sorted.last()));
            } else {
                assert(r.filter(p) == insert_stable(t, x).filter(p));
                assert(sorted.filter(p) == t.filter(p));
            }
        }
    } else {
        let r = sorted.push(x);
        assert(insert_stable(sorted, x) == r);
        assert(r.drop_last() =~= sorted);
        if p(x) {
            assert(r.filter(p) == sorted.filter(p).push(x));
        } else {
            assert(r.filter(p) == sorted.filter(p));
        }
    }
}

/// MX sorting is stable under (preference, exchange): for any one key, the
/// candidates carrying that key stand in the sorted run in exactly the
/// order the resolver listed them.
pub proof fn lemma_stable_sort_stable(s: Seq<MxCandidate>, pref: u16, exchange: Seq<char>)
    ensures
        stable_sort_spec(s).filter(same_key_fn(pref, exchange)) == s.filter(
            same_key_fn(pref, exchange),
        ),
    decreases s.len(),
{
    reveal(Seq::filter);
    let p = same_key_fn(pref, exchange);
    if s.len() > 0 {
        let t = s.drop_last();
        lemma_stable_sort_stable(t, pref, exchange);
        lemma_insert_stable_filter(stable_sort_spec(t), s.last(), pref, exchange);
        if p(s.last()) {
            assert(s.filter(p) == t.filter(p).push(s.last()));
        } else {
            assert(s.filter(p) == t.filter(p));
        }
    }
}

} // verus!
