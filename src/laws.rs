use vstd::prelude::*;
use crate::config::{
    index_of, insert_entry, keys_of, keys_unique, lemma_index_of, lemma_index_of_unique,
    lemma_insert_keeps_unique, lookup,
};
use crate::param::ConfigParam;
use crate::store::ConfigStore;
use crate::config::ExchangeableConfig;

verus! {

/// Adding a key that is already present leaves the order of keys as it was;
/// adding a new key appends it after all the others.
pub proof fn lemma_add_keeps_order(e: Seq<(Seq<char>, ConfigParam)>, k: Seq<char>, v: ConfigParam)
    requires
        keys_unique(e),
    ensures
        keys_of(e).contains(k) ==> keys_of(insert_entry(e, k, v)) == keys_of(e),
        !keys_of(e).contains(k) ==> keys_of(insert_entry(e, k, v)) == keys_of(e).push(k),
{
    lemma_index_of(e, k);
    let r = insert_entry(e, k, v);
    if keys_of(e).contains(k) {
        let j = choose|j: int| 0 <= j < keys_of(e).len() && keys_of(e)[j] == k;
        assert(e[j].0 == k);
        assert(keys_of(r) =~= keys_of(e));
    } else {
        assert forall|j: int| 0 <= j < e.len() implies (#[trigger] e[j]).0 != k by {
            assert(keys_of(e)[j] == e[j].0);
        }
        assert(keys_of(r) =~= keys_of(e).push(k));
    }
}

/// After adding `v` under `k`, looking `k` up finds `v`; where `k` was present
/// already, the number of entries is unchanged, so the key is not duplicated.
pub proof fn lemma_get_after_add(e: Seq<(Seq<char>, ConfigParam)>, k: Seq<char>, v: ConfigParam)
    requires
        keys_unique(e),
    ensures
        lookup(insert_entry(e, k, v), k) == Some(v),
        keys_unique(insert_entry(e, k, v)),
        lookup(e, k) is Some ==> insert_entry(e, k, v).len() == e.len(),
        lookup(e, k) is None ==> insert_entry(e, k, v).len() == e.len() + 1,
{
    lemma_index_of(e, k);
    lemma_insert_keeps_unique(e, k, v);
    let r = insert_entry(e, k, v);
    let i = match index_of(e, k) {
        Some(i) => i,
        None => e.len() as int,
    };
    assert(r[i] == (k, v));
    lemma_index_of_unique(r, i);
}

/// A key is absent from the empty configuration.
pub proof fn lemma_get_absent_from_empty(k: Seq<char>)
    ensures
        lookup(Seq::<(Seq<char>, ConfigParam)>::empty(), k) is None,
{
}

/// The store after putting `c` in force.
pub open spec fn replaced(s: ConfigStore, c: ExchangeableConfig) -> ConfigStore {
    ConfigStore { current: c }
}

/// Two replacements, in whichever order they are applied, leave the store
/// holding one of the two configurations whole.
pub proof fn lemma_replace_whole(s: ConfigStore, a: ExchangeableConfig, b: ExchangeableConfig)
    ensures
        replaced(replaced(s, a), b).current == b,
        replaced(replaced(s, b), a).current == a,
        ({
            let t = replaced(replaced(s, a), b);
            t.current == a || t.current == b
        }),
{
}

} // verus!
