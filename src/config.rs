use vstd::prelude::*;
use crate::param::ConfigParam;
use indexmap::IndexMap;

verus! {

#[verifier::external_type_specification]
#[verifier::external_body]
#[verifier::reject_recursive_types(K)]
#[verifier::reject_recursive_types(V)]
#[verifier::reject_recursive_types(S)]
pub struct ExIndexMap<K, V, S>(IndexMap<K, V, S>);

/// The entries of a parameter map, in the map's order.
pub uninterp spec fn entries_of(m: IndexMap<String, ConfigParam>) -> Seq<(Seq<char>, ConfigParam)>;

/// A position at which `k` stands in `e`, if any (the only one where keys are unique,
/// as they are in every `IndexMap`).
pub open spec fn index_of(e: Seq<(Seq<char>, ConfigParam)>, k: Seq<char>) -> Option<int> {
    if exists|i: int| 0 <= i < e.len() && (#[trigger] e[i]).0 == k {
        let i = choose|i: int| 0 <= i < e.len() && (#[trigger] e[i]).0 == k;
        Some(i)
    } else {
        None
    }
}

/// The value stored under `k` in `e`, if any.
pub open spec fn lookup(e: Seq<(Seq<char>, ConfigParam)>, k: Seq<char>) -> Option<ConfigParam> {
    match index_of(e, k) {
        Some(i) => Some(e[i].1),
        None => None,
    }
}

/// `e` after storing `v` under `k`: in place where `k` already stands, else at the end.
pub open spec fn insert_entry(e: Seq<(Seq<char>, ConfigParam)>, k: Seq<char>, v: ConfigParam) -> Seq<(Seq<char>, ConfigParam)> {
    match index_of(e, k) {
        Some(i) => e.update(i, (k, v)),
        None => e.push((k, v)),
    }
}

/// No key stands twice.
pub open spec fn keys_unique(e: Seq<(Seq<char>, ConfigParam)>) -> bool {
    forall|i: int, j: int| 0 <= i < e.len() && 0 <= j < e.len() && i != j ==> (#[trigger] e[i]).0 != (#[trigger] e[j]).0
}

/// Relies on IndexMap::new: a new map is empty.
#[verifier::external_body]
fn map_new() -> (r: IndexMap<String, ConfigParam>)
    ensures
        entries_of(r) == Seq::<(Seq<char>, ConfigParam)>::empty(),
{
    IndexMap::new()
}

/// Relies on IndexMap::insert: an existing key keeps its place and takes the
/// new value; a new key goes last.
#[verifier::external_body]
fn map_insert(m: &mut IndexMap<String, ConfigParam>, k: String, v: ConfigParam)
    ensures
        entries_of(*final(m)) == insert_entry(entries_of(*old(m)), k@, v),
{
    m.insert(k, v);
}

/// Relies on IndexMap::get: the value stored under the key, if any.
#[verifier::external_body]
fn map_get<'a>(m: &'a IndexMap<String, ConfigParam>, k: &String) -> (r: Option<&'a ConfigParam>)
    ensures
        match r {
            Some(v) => lookup(entries_of(*m), k@) == Some(*v),
            None => lookup(entries_of(*m), k@) is None,
        },
{
    m.get(k)
}

/// Relies on IndexMap::len: the number of entries.
#[verifier::external_body]
fn map_len(m: &IndexMap<String, ConfigParam>) -> (r: usize)
    ensures
        r == entries_of(*m).len(),
{
    m.len()
}

/// Relies on IndexMap::get_index: the entry at a position, in the map's order.
#[verifier::external_body]
fn map_get_index<'a>(m: &'a IndexMap<String, ConfigParam>, i: usize) -> (r: (&'a String, &'a ConfigParam))
    requires
        i < entries_of(*m).len(),
    ensures
        (r.0@, *r.1) == entries_of(*m)[i as int],
{
    let (k, v) = m.get_index(i).unwrap();
    (k, v)
}

/// The keys of `e`, in order.
pub open spec fn keys_of(e: Seq<(Seq<char>, ConfigParam)>) -> Seq<Seq<char>> {
    e.map_values(|p: (Seq<char>, ConfigParam)| p.0)
}

pub proof fn lemma_index_of(e: Seq<(Seq<char>, ConfigParam)>, k: Seq<char>)
    ensures
        match index_of(e, k) {
            Some(i) => 0 <= i < e.len() && e[i].0 == k,
            None => forall|j: int| 0 <= j < e.len() ==> (#[trigger] e[j]).0 != k,
        },
{
}

/// Where keys are unique, a key found at `i` is found nowhere else.
pub proof fn lemma_index_of_unique(e: Seq<(Seq<char>, ConfigParam)>, i: int)
    requires
        keys_unique(e),
        0 <= i < e.len(),
    ensures
        index_of(e, e[i].0) == Some(i),
{
    lemma_index_of(e, e[i].0);
}

/// Storing a value keeps the keys unique.
pub proof fn lemma_insert_keeps_unique(e: Seq<(Seq<char>, ConfigParam)>, k: Seq<char>, v: ConfigParam)
    requires
        keys_unique(e),
    ensures
        keys_unique(insert_entry(e, k, v)),
{
    lemma_index_of(e, k);
    let r = insert_entry(e, k, v);
    assert forall|i: int, j: int| 0 <= i < r.len() && 0 <= j < r.len() && i != j implies (#[trigger] r[i]).0 != (#[trigger] r[j]).0 by {
        match index_of(e, k) {
            Some(x) => {
                assert(e[i].0 != e[j].0);
            },
            None => {
                if i < e.len() && j < e.len() {
                    assert(e[i].0 != e[j].0);
                }
            },
        }
    }
}

/// An ordered mapping from configuration keys to values: keys are unique and
/// entries keep the order in which their keys were first added.
pub struct ExchangeableConfig {
    pub params: IndexMap<String, ConfigParam>,
}

impl View for ExchangeableConfig {
    type V = Seq<(Seq<char>, ConfigParam)>;

    open spec fn view(&self) -> Seq<(Seq<char>, ConfigParam)> {
        entries_of(self.params)
    }
}

impl ExchangeableConfig {
    /// Keys are unique: every configuration made by this library is.
    pub open spec fn wf(&self) -> bool {
        keys_unique(self@)
    }

    /// Stores `config_param` under `key`: an existing key keeps its position
    /// and takes the new value; a new key is appended.
    pub fn add(&mut self, key: String, config_param: ConfigParam)
        requires
            old(self).wf(),
        ensures
            final(self)@ == insert_entry(old(self)@, key@, config_param),
            final(self).wf(),
    {
        proof {
            lemma_insert_keeps_unique(self@, key@, config_param);
        }
        map_insert(&mut self.params, key, config_param);
    }

    /// The value stored under `key`, or `None` where the key is absent.
    pub fn get(&self, key: String) -> (r: Option<ConfigParam>)
        ensures
            r == lookup(self@, key@),
    {
        match map_get(&self.params, &key) {
            Some(config_param) => Some(config_param.clone()),
            None => None,
        }
    }

    /// The number of entries.
    pub fn len(&self) -> (r: usize)
        ensures
            r == self@.len(),
    {
        map_len(&self.params)
    }

    /// The keys, in order.
    pub fn keys(&self) -> (r: Vec<String>)
        ensures
            r@.len() == self@.len(),
            forall|i: int| 0 <= i < r@.len() ==> (#[trigger] r@[i])@ == self@[i].0,
    {
        let n = map_len(&self.params);
        let mut r: Vec<String> = Vec::new();
        let mut i: usize = 0;
        while i < n
            invariant
                n == self@.len(),
                i <= n,
                r@.len() == i,
                forall|j: int| 0 <= j < i ==> (#[trigger] r@[j])@ == self@[j].0,
            decreases n - i,
        {
            let (k, _) = map_get_index(&self.params, i);
            r.push(k.clone());
            i = i + 1;
        }
        r
    }

    /// A copy holding the same entries in the same order.
    pub fn snapshot(&self) -> (r: ExchangeableConfig)
        requires
            self.wf(),
        ensures
            r@ == self@,
            r.wf(),
    {
        let n = map_len(&self.params);
        let mut params = map_new();
        let mut i: usize = 0;
        while i < n
            invariant
                n == self@.len(),
                i <= n,
                keys_unique(self@),
                entries_of(params) == self@.subrange(0, i as int),
            decreases n - i,
        {
            let (k, v) = map_get_index(&self.params, i);
            proof {
                let e = entries_of(params);
                lemma_index_of(e, k@);
                if index_of(e, k@) is Some {
                    let j = index_of(e, k@)->0;
                    assert(self@[j].0 == self@[i as int].0);
                }
            }
            map_insert(&mut params, k.clone(), v.clone());
            assert(entries_of(params) =~= self@.subrange(0, i + 1));
            i = i + 1;
        }
        assert(self@.subrange(0, n as int) =~= self@);
        ExchangeableConfig { params }
    }
}

impl Default for ExchangeableConfig {
    /// The empty configuration.
    fn default() -> (r: ExchangeableConfig)
        ensures
            r@ == Seq::<(Seq<char>, ConfigParam)>::empty(),
            r.wf(),
    {
        ExchangeableConfig { params: map_new() }
    }
}

} // verus!
