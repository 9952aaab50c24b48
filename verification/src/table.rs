//! Lookup tables that are built once from a list of registrations and read
//! from then on.

use std::collections::HashMap;
use std::hash::Hash;
use vstd::prelude::*;
use vstd::std_specs::hash::obeys_key_model;

verus! {

/// Whether no two of `pairs` have one key.
pub open spec fn distinct_keys<K, V>(pairs: Seq<(K, V)>) -> bool {
    forall|i: int, j: int| 0 <= i < j < pairs.len() ==> pairs[i].0 != pairs[j].0
}

/// The table that holds each of `pairs`.
pub open spec fn table_of<K, V>(pairs: Seq<(K, V)>) -> Map<K, V>
    decreases pairs.len(),
{
    if pairs.len() == 0 {
        Map::empty()
    } else {
        table_of(pairs.drop_last()).insert(pairs.last().0, pairs.last().1)
    }
}

/// The table of a list of pairs holds exactly the keys of the list.
pub proof fn lemma_table_keys<K, V>(pairs: Seq<(K, V)>, key: K)
    ensures
        table_of(pairs).contains_key(key) <==> exists|i: int|
            0 <= i < pairs.len() && (#[trigger] pairs[i]).0 == key,
    decreases pairs.len(),
{
    if pairs.len() > 0 {
        lemma_table_keys(pairs.drop_last(), key);
        if table_of(pairs).contains_key(key) {
            if pairs.last().0 == key {
                assert(pairs[pairs.len() - 1].0 == key);
            } else {
                let i = choose|i: int|
                    0 <= i < pairs.drop_last().len() && (#[trigger] pairs.drop_last()[i]).0 == key;
                assert(pairs[i].0 == key);
            }
        }
        if exists|i: int| 0 <= i < pairs.len() && (#[trigger] pairs[i]).0 == key {
            let i = choose|i: int| 0 <= i < pairs.len() && (#[trigger] pairs[i]).0 == key;
            if i < pairs.len() - 1 {
                assert(pairs.drop_last()[i].0 == key);
            }
        }
    }
}

/// Where the keys are distinct, the table holds each pair's value under its
/// key.
pub proof fn lemma_table_value<K, V>(pairs: Seq<(K, V)>, i: int)
    requires
        distinct_keys(pairs),
        0 <= i < pairs.len(),
    ensures
        table_of(pairs).contains_key(pairs[i].0),
        table_of(pairs)[pairs[i].0] == pairs[i].1,
    decreases pairs.len(),
{
    if i < pairs.len() - 1 {
        let head = pairs.drop_last();
        assert forall|a: int, b: int| 0 <= a < b < head.len() implies head[a].0 != head[b].0 by {
            assert(pairs[a].0 != pairs[b].0);
        }
        lemma_table_value(head, i);
        assert(head[i] == pairs[i]);
        assert(pairs[i].0 != pairs[pairs.len() - 1].0);
    }
}

/// Builds the table of `pairs`. A key that occurs twice makes the list
/// unusable: no table is built from it.
pub fn build_table<K: Eq + Hash + Copy, V>(pairs: Vec<(K, V)>) -> (table: Option<HashMap<K, V>>)
    requires
        obeys_key_model::<K>(),
    ensures
        match table {
            Some(table) => distinct_keys(pairs@) && table@ == table_of(pairs@),
            None => !distinct_keys(pairs@),
        },
{
    broadcast use vstd::std_specs::hash::group_hash_axioms;

    let mut table: HashMap<K, V> = HashMap::new();
    let ghost all = pairs@;
    proof {
        assert(all.take(0) =~= Seq::empty());
    }
    for pair in it: pairs
        invariant
            all == it.seq(),
            obeys_key_model::<K>(),
            distinct_keys(all.take(it.index() as int)),
            table@ == table_of(all.take(it.index() as int)),
    {
        let ghost seen = all.take(it.index() as int);
        let ghost next = all.take(it.index() + 1);
        proof {
            assert(next.drop_last() =~= seen);
            assert(next.last() == pair);
            lemma_table_keys(seen, pair.0);
        }
        let previous = table.insert(pair.0, pair.1);
        if previous.is_some() {
            proof {
                let i = choose|i: int| 0 <= i < seen.len() && (#[trigger] seen[i]).0 == pair.0;
                assert(all[i].0 == all[it.index() as int].0);
            }
            return None;
        }
        proof {
            assert forall|a: int, b: int| 0 <= a < b < next.len() implies next[a].0
                != next[b].0 by {
                if b < next.len() - 1 {
                    assert(seen[a].0 != seen[b].0);
                } else {
                    assert(seen[a].0 == next[a].0);
                }
            }
        }
    }
    proof {
        assert(all.take(all.len() as int) =~= all);
    }
    Some(table)
}

/// Two listings of one map, each key once, have one length.
pub proof fn lemma_listings_agree<K, V>(first: Seq<(K, V)>, second: Seq<(K, V)>)
    requires
        distinct_keys(first),
        distinct_keys(second),
        table_of(first) == table_of(second),
    ensures
        first.len() == second.len(),
{
    lemma_table_size(first);
    lemma_table_size(second);
}

/// The table of a list of pairs with distinct keys has as many keys as the
/// list has pairs.
pub proof fn lemma_table_size<K, V>(pairs: Seq<(K, V)>)
    requires
        distinct_keys(pairs),
    ensures
        table_of(pairs).dom().finite(),
        table_of(pairs).dom().len() == pairs.len(),
    decreases pairs.len(),
{
    if pairs.len() > 0 {
        let head = pairs.drop_last();
        assert forall|a: int, b: int| 0 <= a < b < head.len() implies head[a].0 != head[b].0 by {
            assert(pairs[a].0 != pairs[b].0);
        }
        lemma_table_size(head);
        lemma_table_keys(head, pairs.last().0);
        if table_of(head).contains_key(pairs.last().0) {
            let i = choose|i: int| 0 <= i < head.len() && (#[trigger] head[i]).0 == pairs.last().0;
            assert(pairs[i].0 != pairs[pairs.len() - 1].0);
        }
        assert(table_of(pairs).dom() =~= table_of(head).dom().insert(pairs.last().0));
    }
}

} // verus!
