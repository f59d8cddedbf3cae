//! Facts about sequences that the loops over the store rest on.

use vstd::prelude::*;

verus! {

/// Filtering a sequence with one more element keeps what was kept, and the
/// new element where the predicate holds of it.
pub proof fn lemma_filter_push<A>(s: Seq<A>, x: A, p: spec_fn(A) -> bool)
    ensures
        s.push(x).filter(p) == if p(x) {
            s.filter(p).push(x)
        } else {
            s.filter(p)
        },
{
    reveal(Seq::filter);
    assert(s.push(x).drop_last() =~= s);
}

/// The first `i + 1` elements are the first `i` and the one at `i`.
pub proof fn lemma_take_push<A>(s: Seq<A>, i: int)
    requires
        0 <= i < s.len(),
    ensures
        s.take(i + 1) == s.take(i).push(s[i]),
{
    assert(s.take(i + 1) =~= s.take(i).push(s[i]));
}

/// Filtering the first `i + 1` elements, from the filtering of the first `i`.
pub proof fn lemma_filter_take_step<A>(s: Seq<A>, i: int, p: spec_fn(A) -> bool)
    requires
        0 <= i < s.len(),
    ensures
        s.take(i + 1).filter(p) == if p(s[i]) {
            s.take(i).filter(p).push(s[i])
        } else {
            s.take(i).filter(p)
        },
{
    lemma_take_push(s, i);
    lemma_filter_push(s.take(i), s[i], p);
}

/// Nothing is kept of an empty sequence.
pub proof fn lemma_filter_empty<A>(p: spec_fn(A) -> bool)
    ensures
        Seq::<A>::empty().filter(p) == Seq::<A>::empty(),
{
    reveal(Seq::filter);
}

/// What is kept of a sequence stands in the sequence, and the predicate holds
/// of it.
pub proof fn lemma_filter_member<A>(s: Seq<A>, p: spec_fn(A) -> bool, k: int)
    requires
        0 <= k < s.filter(p).len(),
    ensures
        exists|i: int| 0 <= i < s.len() && #[trigger] s[i] == s.filter(p)[k] && p(s[i]),
    decreases s.len(),
{
    if s.len() == 0 {
        lemma_filter_empty::<A>(p);
        assert(s =~= Seq::<A>::empty());
    } else {
        let rest = s.drop_last();
        assert(s =~= rest.push(s.last()));
        lemma_filter_push(rest, s.last(), p);
        if p(s.last()) && k == rest.filter(p).len() {
            assert(s[s.len() - 1] == s.filter(p)[k]);
        } else {
            lemma_filter_member(rest, p, k);
            let i = choose|i: int|
                0 <= i < rest.len() && #[trigger] rest[i] == rest.filter(p)[k] && p(rest[i]);
            assert(s[i] == rest[i]);
        }
    }
}

/// What a window shows of what is kept of a sequence stands in the sequence,
/// and the predicate holds of it.
pub proof fn lemma_window_member<A>(
    s: Seq<A>,
    p: spec_fn(A) -> bool,
    offset: nat,
    limit: nat,
    k: int,
)
    requires
        0 <= k < window(s.filter(p), offset, limit).len(),
    ensures
        exists|i: int|
            0 <= i < s.len() && #[trigger] s[i] == window(s.filter(p), offset, limit)[k] && p(
                s[i],
            ),
{
    lemma_filter_member(s, p, offset + k);
}

/// The elements of `s` from `offset`, at most `limit` of them.
pub open spec fn window<A>(s: Seq<A>, offset: nat, limit: nat) -> Seq<A> {
    let lo = if offset <= s.len() {
        offset
    } else {
        s.len()
    };
    let hi = if offset + limit <= s.len() {
        offset + limit
    } else {
        s.len()
    };
    s.subrange(lo as int, hi as int)
}

/// A window over a sequence with one more element takes that element exactly
/// where the window starts at or before it and is not yet full.
pub proof fn lemma_window_push<A>(s: Seq<A>, x: A, offset: nat, limit: nat)
    ensures
        window(s.push(x), offset, limit) == if offset <= s.len() < offset + limit {
            window(s, offset, limit).push(x)
        } else {
            window(s, offset, limit)
        },
        window(s, offset, limit).len() == if s.len() <= offset {
            0
        } else if s.len() <= offset + limit {
            s.len() - offset
        } else {
            limit as int
        },
{
    if offset <= s.len() < offset + limit {
        assert(window(s.push(x), offset, limit) =~= window(s, offset, limit).push(x));
    } else {
        assert(window(s.push(x), offset, limit) =~= window(s, offset, limit));
    }
}

} // verus!
