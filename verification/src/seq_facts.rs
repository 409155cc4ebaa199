//! Facts about sequences that several modules' proofs share.

use vstd::prelude::*;

verus! {

/// Filtering one element more of a prefix appends that element when it
/// passes the filter.
pub proof fn lemma_filter_take_step<A>(s: Seq<A>, p: spec_fn(A) -> bool, j: int)
    requires
        0 <= j < s.len(),
    ensures
        s.take(j + 1).filter(p) == (if p(s[j]) {
            s.take(j).filter(p).push(s[j])
        } else {
            s.take(j).filter(p)
        }),
{
    reveal_with_fuel(Seq::filter, 1);
    assert(s.take(j + 1).drop_last() =~= s.take(j));
}

/// Splitting a sequence at `j`: what is filtered before and what is left
/// after, in the state where the element at `j` is being examined.
pub proof fn lemma_split_at_examined<A>(s: Seq<A>, p: spec_fn(A) -> bool, j: int, v: Seq<A>)
    requires
        0 <= j < s.len(),
        v == s.take(j).filter(p) + s.skip(j),
    ensures
        v[s.take(j).filter(p).len() as int] == s[j],
        p(s[j]) ==> v == s.take(j + 1).filter(p) + s.skip(j + 1),
        !p(s[j]) ==> v.remove(s.take(j).filter(p).len() as int) == s.take(j + 1).filter(p) + s.skip(
            j + 1,
        ),
{
    lemma_filter_take_step(s, p, j);
    let f = s.take(j).filter(p);
    assert(s.skip(j) =~= seq![s[j]] + s.skip(j + 1));
    if p(s[j]) {
        assert(v =~= s.take(j + 1).filter(p) + s.skip(j + 1));
    } else {
        assert(v.remove(f.len() as int) =~= s.take(j + 1).filter(p) + s.skip(j + 1));
    }
}

/// Once every element is examined, what is left is the filtered sequence.
pub proof fn lemma_split_done<A>(s: Seq<A>, p: spec_fn(A) -> bool)
    ensures
        s.take(s.len() as int).filter(p) + s.skip(s.len() as int) == s.filter(p),
        s.filter(p).len() <= s.len(),
{
    assert(s.take(s.len() as int) =~= s);
    assert(s.take(s.len() as int).filter(p) + s.skip(s.len() as int) =~= s.filter(p));
    s.lemma_filter_len(p);
}

/// In a sequence without repeats, the elements that pass a filter are as
/// many as the distinct ones among them.
pub proof fn lemma_distinct_filter_len<A>(s: Seq<A>, p: spec_fn(A) -> bool)
    requires
        s.no_duplicates(),
    ensures
        s.filter(p).len() == s.to_set().filter(p).len(),
    decreases s.len(),
{
    broadcast use vstd::set::group_set_axioms;
    broadcast use vstd::seq_lib::seq_to_set_is_finite;
    if s.len() == 0 {
        assert(s.to_set().filter(p) =~= Set::empty());
        s.lemma_filter_len(p);
    } else {
        let t = s.drop_last();
        let x = s.last();
        assert(s =~= t.push(x));
        assert(t.no_duplicates());
        lemma_distinct_filter_len(t, p);
        t.lemma_filter_push(x, p);
        t.lemma_push_to_set_commute(x);
        assert(!t.contains(x)) by {
            if t.contains(x) {
                let i = choose|i: int| 0 <= i < t.len() && t[i] == x;
                assert(s[i] == s[s.len() - 1]);
            }
        }
        assert(!t.to_set().filter(p).contains(x));
        if p(x) {
            assert(s.to_set().filter(p) =~= t.to_set().filter(p).insert(x));
        } else {
            assert(s.to_set().filter(p) =~= t.to_set().filter(p));
        }
    }
}

} // verus!
