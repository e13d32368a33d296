use vstd::prelude::*;

verus! {

/// Filtering one more element keeps it, after what was kept before,
/// exactly when it passes.
pub proof fn lemma_filter_push<A>(s: Seq<A>, pass: spec_fn(A) -> bool, last: A)
    ensures
        s.push(last).filter(pass) == if pass(last) {
            s.filter(pass).push(last)
        } else {
            s.filter(pass)
        },
{
    reveal(Seq::filter);
    assert(s.push(last).drop_last() =~= s);
}

/// Nothing is kept of nothing.
pub proof fn lemma_filter_empty<A>(pass: spec_fn(A) -> bool)
    ensures
        Seq::<A>::empty().filter(pass) == Seq::<A>::empty(),
{
    reveal(Seq::filter);
}

/// An element that does not pass a filter can be taken out beforehand:
/// what is kept of the others is the same.
pub proof fn lemma_filter_without_rejected<A>(s: Seq<A>, pass: spec_fn(A) -> bool, at: int)
    requires
        0 <= at < s.len(),
        !pass(s[at]),
    ensures
        s.filter(pass) == s.remove(at).filter(pass),
{
    let before = s.subrange(0, at);
    let after = s.subrange(at + 1, s.len() as int);
    assert(s =~= before.push(s[at]) + after);
    assert(s.remove(at) =~= before + after);
    Seq::filter_distributes_over_add(before.push(s[at]), after, pass);
    Seq::filter_distributes_over_add(before, after, pass);
    lemma_filter_push(before, pass, s[at]);
}

/// Filtering and then mapping is mapping and then filtering, where the
/// two filters agree across the mapping.
pub proof fn lemma_filter_commutes_with_map<A, B>(
    s: Seq<A>,
    pass: spec_fn(A) -> bool,
    f: spec_fn(A) -> B,
    pass_mapped: spec_fn(B) -> bool,
)
    requires
        forall|a: A| #[trigger] pass(a) == pass_mapped(f(a)),
    ensures
        s.filter(pass).map_values(f) == s.map_values(f).filter(pass_mapped),
    decreases s.len(),
{
    reveal(Seq::filter);
    if s.len() == 0 {
        assert(s.filter(pass).map_values(f) =~= s.map_values(f).filter(pass_mapped));
    } else {
        let rest = s.drop_last();
        let last = s.last();
        lemma_filter_commutes_with_map(rest, pass, f, pass_mapped);
        assert(s.map_values(f).drop_last() =~= rest.map_values(f));
        assert(s.map_values(f).last() == f(last));
        assert(pass(last) == pass_mapped(f(last)));
        if pass(last) {
            assert(rest.filter(pass).push(last).map_values(f) =~= rest.filter(pass).map_values(
                f,
            ).push(f(last)));
        }
    }
}

} // verus!
