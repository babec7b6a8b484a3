//! Lists of key-value pairs, and the map that such a list stands for.
use vstd::prelude::*;

verus! {

/// The map that a list of pairs builds up when its pairs are inserted in order: of
/// several pairs with one key the last one counts.
pub open spec fn pairs_map<K, V>(pairs: Seq<(K, V)>) -> Map<K, V>
    decreases pairs.len(),
{
    if pairs.len() == 0 {
        Map::empty()
    } else {
        pairs_map(pairs.drop_last()).insert(pairs.last().0, pairs.last().1)
    }
}

/// Whether no key stands in two pairs of a list.
pub open spec fn distinct_keys<K, V>(pairs: Seq<(K, V)>) -> bool {
    forall|i: int, j: int|
        0 <= i < j < pairs.len() ==> (#[trigger] pairs[i]).0 != (#[trigger] pairs[j]).0
}

/// The keys of the map are those of the pairs.
pub proof fn lemma_pairs_keys<K, V>(pairs: Seq<(K, V)>)
    ensures
        forall|i: int|
            0 <= i < pairs.len() ==> pairs_map(pairs).contains_key((#[trigger] pairs[i]).0),
        forall|k: K| #[trigger]
            pairs_map(pairs).contains_key(k) ==> exists|i: int|
                0 <= i < pairs.len() && (#[trigger] pairs[i]).0 == k,
    decreases pairs.len(),
{
    if pairs.len() > 0 {
        let init = pairs.drop_last();
        lemma_pairs_keys(init);
        assert forall|i: int| 0 <= i < pairs.len() implies pairs_map(pairs).contains_key(
            (#[trigger] pairs[i]).0,
        ) by {
            if i < init.len() {
                assert(init[i] == pairs[i]);
            }
        }
        assert forall|k: K| #[trigger] pairs_map(pairs).contains_key(k) implies exists|i: int|
            0 <= i < pairs.len() && (#[trigger] pairs[i]).0 == k by {
            if k == pairs.last().0 {
                assert(pairs[pairs.len() - 1].0 == k);
            } else {
                assert(pairs_map(init).contains_key(k));
                let i = choose|i: int| 0 <= i < init.len() && (#[trigger] init[i]).0 == k;
                assert(pairs[i].0 == k);
            }
        }
    }
}

/// Where no key occurs twice, each pair is in the map as it stands.
pub proof fn lemma_pairs_values<K, V>(pairs: Seq<(K, V)>)
    requires
        distinct_keys(pairs),
    ensures
        forall|i: int|
            0 <= i < pairs.len() ==> pairs_map(pairs)[(#[trigger] pairs[i]).0] == pairs[i].1,
    decreases pairs.len(),
{
    if pairs.len() > 0 {
        let init = pairs.drop_last();
        lemma_pairs_values(init);
        lemma_pairs_keys(init);
        assert forall|i: int| 0 <= i < pairs.len() implies pairs_map(pairs)[(
        #[trigger] pairs[i]).0] == pairs[i].1 by {
            if i < init.len() {
                assert(init[i] == pairs[i]);
                assert(pairs[i].0 != pairs[pairs.len() - 1].0);
            }
        }
    }
}

/// Where no key occurs twice, writing a new value into a pair inserts it into the map.
pub proof fn lemma_pairs_update<K, V>(pairs: Seq<(K, V)>, at: int, value: V)
    requires
        distinct_keys(pairs),
        0 <= at < pairs.len(),
    ensures
        distinct_keys(pairs.update(at, (pairs[at].0, value))),
        pairs_map(pairs.update(at, (pairs[at].0, value))) == pairs_map(pairs).insert(
            pairs[at].0,
            value,
        ),
{
    let updated = pairs.update(at, (pairs[at].0, value));
    assert forall|i: int, j: int| 0 <= i < j < updated.len() implies (#[trigger] updated[i]).0 != (
    #[trigger] updated[j]).0 by {
        assert(updated[i].0 == pairs[i].0 && updated[j].0 == pairs[j].0);
    }
    lemma_pairs_keys(pairs);
    lemma_pairs_values(pairs);
    lemma_pairs_keys(updated);
    lemma_pairs_values(updated);
    let left = pairs_map(updated);
    let right = pairs_map(pairs).insert(pairs[at].0, value);
    assert forall|k: K| #[trigger] left.contains_key(k) == right.contains_key(k) by {
        if left.contains_key(k) {
            let i = choose|i: int| 0 <= i < updated.len() && (#[trigger] updated[i]).0 == k;
            assert(pairs[i].0 == k);
        }
        if right.contains_key(k) && k != pairs[at].0 {
            let i = choose|i: int| 0 <= i < pairs.len() && (#[trigger] pairs[i]).0 == k;
            assert(updated[i].0 == k);
        }
        if k == pairs[at].0 {
            assert(updated[at].0 == k);
        }
    }
    assert forall|k: K| #[trigger] left.contains_key(k) implies left[k] == right[k] by {
        let i = choose|i: int| 0 <= i < updated.len() && (#[trigger] updated[i]).0 == k;
        if i != at {
            assert(updated[i] == pairs[i]);
            if i < at {
                assert(pairs[i].0 != pairs[at].0);
            } else {
                assert(pairs[at].0 != pairs[i].0);
            }
        }
    }
    assert(left =~= right);
}

/// A pair that no later pair has the key of is in the map as it stands.
pub proof fn law_last_pair_counts<K, V>(pairs: Seq<(K, V)>, at: int)
    requires
        0 <= at < pairs.len(),
        forall|j: int| at < j < pairs.len() ==> (#[trigger] pairs[j]).0 != pairs[at].0,
    ensures
        pairs_map(pairs).contains_key(pairs[at].0),
        pairs_map(pairs)[pairs[at].0] == pairs[at].1,
    decreases pairs.len(),
{
    if at < pairs.len() - 1 {
        let init = pairs.drop_last();
        assert forall|j: int| at < j < init.len() implies (#[trigger] init[j]).0 != init[at].0 by {
            assert(init[j] == pairs[j]);
        }
        law_last_pair_counts(init, at);
        assert(pairs[pairs.len() - 1].0 != pairs[at].0);
    }
}

} // verus!
