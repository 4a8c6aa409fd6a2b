use vstd::prelude::*;

verus! {

/// The subscribers whose delivery succeeded, in their order.
pub open spec fn kept<T>(subs: Seq<T>, delivered: Seq<bool>) -> Seq<T>
    decreases subs.len(),
{
    if subs.len() == 0 || delivered.len() == 0 {
        Seq::empty()
    } else {
        let k = kept(subs.drop_last(), delivered.drop_last());
        if delivered.last() {
            k.push(subs.last())
        } else {
            k
        }
    }
}

proof fn lemma_kept_len<T>(subs: Seq<T>, delivered: Seq<bool>)
    ensures
        kept(subs, delivered).len() <= subs.len(),
    decreases subs.len(),
{
    if subs.len() > 0 && delivered.len() > 0 {
        lemma_kept_len(subs.drop_last(), delivered.drop_last());
    }
}

/// Drops the subscribers that an event could not reach; `delivered[i]` says whether the
/// send to `subs[i]` succeeded. The others keep their order.
pub fn prune_subscribers<T>(subs: &mut Vec<T>, delivered: &Vec<bool>)
    requires
        old(subs)@.len() == delivered@.len(),
    ensures
        final(subs)@ == kept(old(subs)@, delivered@),
{
    let ghost s0 = subs@;
    let mut i: usize = 0;
    let mut j: usize = 0;
    assert(s0.take(0) =~= Seq::<T>::empty());
    assert(s0.skip(0) =~= s0);
    while j < delivered.len()
        invariant
            j <= delivered@.len(),
            s0.len() == delivered@.len(),
            i == kept(s0.take(j as int), delivered@.take(j as int)).len(),
            subs@ == kept(s0.take(j as int), delivered@.take(j as int)) + s0.skip(j as int),
        decreases delivered@.len() - j,
    {
        let ghost k = kept(s0.take(j as int), delivered@.take(j as int));
        proof {
            lemma_kept_len(s0.take(j as int), delivered@.take(j as int));
        }
        assert(s0.take(j + 1).drop_last() =~= s0.take(j as int));
        assert(delivered@.take(j + 1).drop_last() =~= delivered@.take(j as int));
        assert(s0.take(j + 1).last() == s0[j as int]);
        assert(delivered@.take(j + 1).last() == delivered@[j as int]);
        assert(subs@[i as int] == s0[j as int]);
        if delivered[j] {
            i = i + 1;
            assert(subs@ =~= k.push(s0[j as int]) + s0.skip(j + 1));
        } else {
            subs.remove(i);
            assert(subs@ =~= k + s0.skip(j + 1));
        }
        j = j + 1;
    }
    assert(s0.take(j as int) =~= s0);
    assert(delivered@.take(j as int) =~= delivered@);
    assert(subs@ =~= kept(s0, delivered@));
}

} // verus!
