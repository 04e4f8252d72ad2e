//! Facts about sequences that the proofs of this crate use.

use vstd::prelude::*;

verus! {

/// Filtering a sequence with one more element at its end.
pub proof fn lemma_filter_push<A>(s: Seq<A>, pred: spec_fn(A) -> bool, e: A)
    ensures
        s.push(e).filter(pred) == if pred(e) {
            s.filter(pred).push(e)
        } else {
            s.filter(pred)
        },
{
    reveal(Seq::filter);
    assert(s.push(e).drop_last() =~= s);
}

/// Two filters in a row keep what their conjunction keeps.
pub proof fn lemma_filter_filter<A>(s: Seq<A>, p: spec_fn(A) -> bool, q: spec_fn(A) -> bool)
    ensures
        s.filter(p).filter(q) == s.filter(|x: A| p(x) && q(x)),
    decreases s.len(),
{
    let pq = |x: A| p(x) && q(x);
    if s.len() == 0 {
        assert(s.filter(p) =~= Seq::<A>::empty()) by {
            reveal(Seq::filter);
        }
        assert(s.filter(pq) =~= Seq::<A>::empty()) by {
            reveal(Seq::filter);
        }
        assert(s.filter(p).filter(q) =~= Seq::<A>::empty()) by {
            reveal(Seq::filter);
        }
    } else {
        let init = s.drop_last();
        let e = s.last();
        assert(s =~= init.push(e));
        lemma_filter_filter(init, p, q);
        lemma_filter_push(init, p, e);
        lemma_filter_push(init, pq, e);
        if p(e) {
            lemma_filter_push(init.filter(p), q, e);
        }
    }
}

/// Filters by predicates that agree on every element give the same result.
pub proof fn lemma_filter_agree<A>(s: Seq<A>, p: spec_fn(A) -> bool, q: spec_fn(A) -> bool)
    requires
        forall|i: int| 0 <= i < s.len() ==> p(#[trigger] s[i]) == q(s[i]),
    ensures
        s.filter(p) == s.filter(q),
    decreases s.len(),
{
    if s.len() == 0 {
        assert(s.filter(p) =~= Seq::<A>::empty()) by {
            reveal(Seq::filter);
        }
        assert(s.filter(q) =~= Seq::<A>::empty()) by {
            reveal(Seq::filter);
        }
    } else {
        let init = s.drop_last();
        let e = s.last();
        assert(s =~= init.push(e));
        assert forall|i: int| 0 <= i < init.len() implies p(#[trigger] init[i]) == q(init[i]) by {
            assert(init[i] == s[i]);
        }
        lemma_filter_agree(init, p, q);
        lemma_filter_push(init, p, e);
        lemma_filter_push(init, q, e);
        assert(p(s[s.len() - 1]) == q(s[s.len() - 1]));
    }
}

/// Filtering by an always-true predicate keeps everything.
pub proof fn lemma_filter_all<A>(s: Seq<A>)
    ensures
        s.filter(|a: A| true) == s,
    decreases s.len(),
{
    reveal(Seq::filter);
    if s.len() > 0 {
        lemma_filter_all(s.drop_last());
        assert(s.drop_last().push(s.last()) =~= s);
    } else {
        assert(s.filter(|a: A| true) =~= s);
    }
}

/// Filtering by an always-false predicate keeps nothing.
pub proof fn lemma_filter_none<A>(s: Seq<A>)
    ensures
        s.filter(|a: A| false).len() == 0,
    decreases s.len(),
{
    reveal(Seq::filter);
    if s.len() > 0 {
        lemma_filter_none(s.drop_last());
    }
}

} // verus!
