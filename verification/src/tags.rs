use vstd::prelude::*;

verus! {

/// The concatenation of a sequence of sequences, kept in order.
pub open spec fn concat_all<A>(s: Seq<Seq<A>>) -> Seq<A>
    decreases s.len(),
{
    if s.len() == 0 {
        Seq::empty()
    } else {
        s[0] + concat_all(s.drop_first())
    }
}

pub proof fn lemma_concat_all_push<A>(s: Seq<Seq<A>>, x: Seq<A>)
    ensures
        concat_all(s.push(x)) == concat_all(s) + x,
    decreases s.len(),
{
    if s.len() == 0 {
        assert(s.push(x).drop_first() =~= Seq::<Seq<A>>::empty());
        assert(s.push(x)[0] == x);
        assert(concat_all(s.push(x)) == x + concat_all(Seq::<Seq<A>>::empty()));
        assert(concat_all(Seq::<Seq<A>>::empty()) == Seq::<A>::empty());
        assert(x + Seq::<A>::empty() =~= x);
        assert(concat_all(s) + x =~= x);
    } else {
        assert(s.push(x).drop_first() =~= s.drop_first().push(x));
        lemma_concat_all_push(s.drop_first(), x);
        assert(s.push(x)[0] == s[0]);
        assert(concat_all(s.push(x)) =~= concat_all(s) + x);
    }
}

/// Merges a node's freshly generated tag lines with the already-published
/// tag lines of its dependencies: the node's own symbols come first, then
/// each dependency's lines in dependency-list order. Duplicate entries are
/// preserved as they are; the tag format tolerates them and editors present
/// all matches.
pub fn merge_tags(own: Vec<String>, deps: &Vec<Vec<String>>) -> (merged: Vec<String>)
    ensures
        merged.deep_view() == own.deep_view() + concat_all(deps.deep_view()),
{
    let ghost own_dv = own.deep_view();
    let mut merged = own;
    let mut di: usize = 0;
    while di < deps.len()
        invariant
            di <= deps@.len(),
            merged.deep_view() == own_dv + concat_all(deps.deep_view().take(di as int)),
        decreases deps@.len() - di,
    {
        let dep = &deps[di];
        let mut li: usize = 0;
        while li < dep.len()
            invariant
                li <= dep@.len(),
                di < deps@.len(),
                dep.deep_view() == deps.deep_view()[di as int],
                merged.deep_view() == own_dv + concat_all(deps.deep_view().take(di as int))
                    + dep.deep_view().take(li as int),
            decreases dep@.len() - li,
        {
            let ghost before = merged.deep_view();
            merged.push(dep[li].clone());
            proof {
                assert(merged.deep_view() =~~= before.push(dep.deep_view()[li as int]));
                assert(dep.deep_view().take(li + 1) =~= dep.deep_view().take(li as int).push(
                    dep.deep_view()[li as int],
                ));
                assert(merged.deep_view() =~~= own_dv + concat_all(
                    deps.deep_view().take(di as int),
                ) + dep.deep_view().take(li + 1));
            }
            li = li + 1;
        }
        proof {
            assert(dep.deep_view().take(dep@.len() as int) =~= dep.deep_view());
            lemma_concat_all_push(deps.deep_view().take(di as int), deps.deep_view()[di as int]);
            assert(deps.deep_view().take(di + 1) =~= deps.deep_view().take(di as int).push(
                deps.deep_view()[di as int],
            ));
            assert(merged.deep_view() =~~= own_dv + concat_all(deps.deep_view().take(di + 1)));
        }
        di = di + 1;
    }
    proof {
        assert(deps.deep_view().take(deps@.len() as int) =~= deps.deep_view());
    }
    merged
}

} // verus!
