//! Tables: hash maps of rows, each found by its key, and what the contracts say of them.

use vstd::prelude::*;
use std::collections::HashMap;
use std::hash::Hash;
use vstd::std_specs::hash::obeys_key_model;
use vstd::std_specs::hash::spec_hash_map_iter;
use vstd::std_specs::iter::IteratorSpec;

verus! {

/// What can be a row of a table: it has a model for the contracts, and can be copied.
pub trait Row: Sized {
    type Model;

    /// The row as the contracts see it.
    spec fn model(&self) -> Self::Model;

    /// An equal row.
    fn copy(&self) -> (r: Self)
        ensures
            r.model() == self.model(),
    ;
}

/// What a table holds, as the contracts see it: the model of each row under its key.
pub open spec fn contents<K, T: Row>(table: Map<K, T>) -> Map<K, T::Model> {
    table.map_values(|row: T| row.model())
}

/// A table without rows holds nothing.
pub proof fn lemma_contents_empty<K, T: Row>()
    ensures
        contents(Map::<K, T>::empty()) == Map::<K, T::Model>::empty(),
{
    assert(contents(Map::<K, T>::empty()) =~= Map::<K, T::Model>::empty());
}

/// A row put into a table is what the table holds under its key; the rest stays.
pub proof fn lemma_contents_insert<K, T: Row>(table: Map<K, T>, key: K, row: T)
    ensures
        contents(table.insert(key, row)) == contents(table).insert(key, row.model()),
{
    assert(contents(table.insert(key, row)) =~= contents(table).insert(key, row.model()));
}

/// A row taken out of a table is no longer held; the rest stays.
pub proof fn lemma_contents_remove<K, T: Row>(table: Map<K, T>, key: K)
    ensures
        contents(table.remove(key)) == contents(table).remove(key),
{
    assert(contents(table.remove(key)) =~= contents(table).remove(key));
}

/// What is found under a key, if anything.
pub open spec fn found<K, V>(table: Map<K, V>, key: K) -> Option<V> {
    if table.dom().contains(key) {
        Some(table[key])
    } else {
        None
    }
}

/// `listed` holds the records of `table` that `keep` accepts, each of them once, and
/// nothing else. The order is left open.
pub open spec fn lists<K, V>(listed: Seq<V>, table: Map<K, V>, keep: spec_fn(V) -> bool) -> bool {
    exists|keys: Seq<K>| lists_by(keys, listed, table, keep)
}

/// `listed` holds the records of `table` that `keep` accepts, each of them once, and
/// `keys` holds the key of each.
pub open spec fn lists_by<K, V>(
    keys: Seq<K>,
    listed: Seq<V>,
    table: Map<K, V>,
    keep: spec_fn(V) -> bool,
) -> bool {
    &&& keys.len() == listed.len()
    &&& keys.no_duplicates()
    &&& forall|i: int|
        0 <= i < keys.len() ==> table.dom().contains(#[trigger] keys[i]) && table[keys[i]]
            == listed[i] && keep(listed[i])
    &&& forall|k: K| #[trigger] table.dom().contains(k) && keep(table[k]) ==> keys.contains(k)
}

/// What is listed under one test is listed under every test that accepts the same records.
pub proof fn lemma_lists_same<K, V>(
    listed: Seq<V>,
    table: Map<K, V>,
    keep: spec_fn(V) -> bool,
    other: spec_fn(V) -> bool,
)
    requires
        lists(listed, table, keep),
        forall|v: V| #[trigger] keep(v) == other(v),
    ensures
        lists(listed, table, other),
{
    let keys = choose|keys: Seq<K>| lists_by(keys, listed, table, keep);
    assert(lists_by(keys, listed, table, other));
}

/// A test that picks rows out of a table.
pub trait Probe<T: Row> {
    /// Whether the test accepts a row with this model.
    spec fn accepts(&self, model: T::Model) -> bool;

    /// Whether the test accepts the row.
    fn test(&self, row: &T) -> (r: bool)
        ensures
            r == self.accepts(row.model()),
    ;
}

/// The models of some rows, in order.
pub open spec fn models<T: Row>(rows: Seq<T>) -> Seq<T::Model> {
    Seq::new(rows.len(), |i: int| rows[i].model())
}

/// A copy of the row that the table holds under `key`, if it holds one.
pub fn copy_of<K: Eq + Hash, T: Row>(table: &HashMap<K, T>, key: &K) -> (r: Option<T>)
    requires
        obeys_key_model::<K>(),
    ensures
        match r {
            Some(row) => found(contents(table@), *key) == Some(row.model()),
            None => found(contents(table@), *key) is None,
        },
{
    broadcast use vstd::std_specs::hash::group_hash_axioms;

    match table.get(key) {
        Some(row) => Some(row.copy()),
        None => None,
    }
}

/// Copies of the rows that the test accepts, each of them once, in the order in which the
/// table hands its rows out.
pub fn select<K, T: Row, P: Probe<T>>(table: &HashMap<K, T>, probe: &P) -> (r: Vec<T>)
    requires
        obeys_key_model::<K>(),
    ensures
        lists(models(r@), contents(table@), |m: T::Model| probe.accepts(m)),
{
    broadcast use vstd::std_specs::hash::group_hash_axioms;

    let ghost all = spec_hash_map_iter(table).remaining();
    let ghost held = contents(table@);
    let mut out: Vec<T> = Vec::new();
    let ghost mut keys: Seq<K> = Seq::empty();
    let ghost mut done: int = 0;
    for pair in it: table.iter()
        invariant
            it.seq() == all,
            done == it.index(),
            all.no_duplicates(),
            forall|i: int|
                0 <= i < all.len() ==> table@.contains_key(*(#[trigger] all[i]).0)
                    && table@[*all[i].0] == *all[i].1,
            held == contents(table@),
            keys.len() == out.len(),
            forall|j: int|
                0 <= j < keys.len() ==> exists|i: int|
                    0 <= i < done && *all[i].0 == #[trigger] keys[j],
            forall|j: int|
                0 <= j < keys.len() ==> held.dom().contains(#[trigger] keys[j]) && held[keys[j]]
                    == out@[j].model() && probe.accepts(out@[j].model()),
            keys.no_duplicates(),
            forall|i: int|
                0 <= i < done && probe.accepts((*all[i].1).model()) ==> keys.contains(
                    *(#[trigger] all[i]).0,
                ),
    {
        let ghost at = done;
        let (key, row) = pair;
        assert(all[at] == (key, row));
        if probe.test(row) {
            proof {
                assert forall|j: int| 0 <= j < keys.len() implies keys[j] != *key by {
                    let i = choose|i: int| 0 <= i < at && *all[i].0 == keys[j];
                    if *all[i].0 == *key {
                        assert(table@[*all[i].0] == *all[i].1);
                        assert(all[i] == all[at]);
                    }
                }
                let ghost before = keys;
                keys = keys.push(*key);
                assert forall|i: int|
                    0 <= i < at + 1 && probe.accepts((*all[i].1).model()) implies keys.contains(
                    *(#[trigger] all[i]).0,
                ) by {
                    if i < at {
                        let j = choose|j: int| 0 <= j < before.len() && before[j] == *all[i].0;
                        assert(keys[j] == *all[i].0);
                    } else {
                        assert(keys[keys.len() - 1] == *key);
                    }
                }
            }
            out.push(row.copy());
        }
        assert forall|j: int| 0 <= j < keys.len() implies exists|i: int|
            0 <= i < at + 1 && *all[i].0 == #[trigger] keys[j] by {
            if *all[at].0 != keys[j] {
                let i = choose|i: int| 0 <= i < at && *all[i].0 == keys[j];
                assert(*all[i].0 == keys[j]);
            }
        }
        proof {
            done = done + 1;
        }
    }
    proof {
        let keep = |m: T::Model| probe.accepts(m);
        assert forall|k: K| #[trigger] held.dom().contains(k) && keep(held[k]) implies keys.contains(
            k,
        ) by {
            assert(table@.contains_key(k));
            assert(all.contains((&k, &table@[k])));
            let i = choose|i: int| 0 <= i < all.len() && all[i] == (&k, &table@[k]);
            assert(*all[i].0 == k);
        }
        assert(lists_by(keys, models(out@), held, keep));
    }
    out
}

} // verus!
