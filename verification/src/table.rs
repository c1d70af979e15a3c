//! Lookup tables over the dataset, and the correctness check every trial runs.
//!
//! A trial builds a table from the dataset (or reuses a pre-built one) and
//! then looks every identifier up, comparing the retrieved index with the one
//! paired at generation. `table_of` is the mathematical table a build
//! produces; `pairs_found` is what a clean check pass means.

use vstd::prelude::*;
use std::collections::HashMap;
use crate::ids::uuid_bits;

verus! {

broadcast use vstd::std_specs::hash::group_hash_axioms;

/// The map a sequence of key/index pairs builds up, later pairs winning.
pub open spec fn table_of<K>(s: Seq<(K, usize)>) -> Map<K, usize>
    decreases s.len(),
{
    if s.len() == 0 {
        Map::empty()
    } else {
        table_of(s.drop_last()).insert(s.last().0, s.last().1)
    }
}

/// Pairwise-distinct keys.
pub open spec fn distinct_keys<K>(s: Seq<(K, usize)>) -> bool {
    forall|i: int, j: int| 0 <= i < j < s.len() ==> (#[trigger] s[i]).0 != (#[trigger] s[j]).0
}

/// Every pair of `s` is present in the table `t` exactly as paired.
pub open spec fn pairs_found<K>(t: Map<K, usize>, s: Seq<(K, usize)>) -> bool {
    forall|i: int| 0 <= i < s.len() ==> t.contains_pair((#[trigger] s[i]).0, s[i].1)
}

/// The dataset with each identifier replaced by its 128 bits.
pub open spec fn id_bits_seq(s: Seq<(uuid::Uuid, usize)>) -> Seq<(u128, usize)> {
    s.map_values(|p: (uuid::Uuid, usize)| (uuid_bits(p.0), p.1))
}

proof fn lemma_table_of_contains_pair<K>(s: Seq<(K, usize)>, i: int)
    requires
        distinct_keys(s),
        0 <= i < s.len(),
    ensures
        table_of(s).contains_pair(s[i].0, s[i].1),
    decreases s.len(),
{
    if i < s.len() - 1 {
        assert(distinct_keys(s.drop_last())) by {
            assert(forall|a: int, b: int|
                0 <= a < b < s.drop_last().len() ==> (#[trigger] s.drop_last()[a]).0 != (
                #[trigger] s.drop_last()[b]).0);
        }
        lemma_table_of_contains_pair(s.drop_last(), i);
        assert(s[i].0 != s.last().0);
    }
}

/// Looked up in the table built from pairwise-distinct pairs, every
/// identifier yields exactly the index it was paired with.
pub proof fn lemma_distinct_keys_lookup<K>(s: Seq<(K, usize)>)
    requires
        distinct_keys(s),
    ensures
        pairs_found(table_of(s), s),
{
    assert forall|i: int| 0 <= i < s.len() implies table_of(s).contains_pair(
        (#[trigger] s[i]).0,
        s[i].1,
    ) by {
        lemma_table_of_contains_pair(s, i);
    }
}

/// Distinct identifier bits make the identifiers themselves distinct.
pub proof fn lemma_distinct_bits_distinct_ids(s: Seq<(uuid::Uuid, usize)>)
    requires
        distinct_keys(id_bits_seq(s)),
    ensures
        distinct_keys(s),
{
    assert forall|i: int, j: int| 0 <= i < j < s.len() implies (#[trigger] s[i]).0 != (
    #[trigger] s[j]).0 by {
        assert(id_bits_seq(s)[i].0 != id_bits_seq(s)[j].0);
    }
}

/// Builds a table keyed by the raw 128-bit value of each identifier, using
/// the standard map with its default hash function.
pub fn build_u128_table(data: &Vec<(uuid::Uuid, usize)>) -> (m: HashMap<u128, usize>)
    ensures
        m@ == table_of(id_bits_seq(data@)),
{
    let mut m: HashMap<u128, usize> = HashMap::new();
    let mut i: usize = 0;
    while i < data.len()
        invariant
            i <= data@.len(),
            m@ == table_of(id_bits_seq(data@.take(i as int))),
        decreases data@.len() - i,
    {
        let key: u128 = data[i].0.as_u128();
        let idx: usize = data[i].1;
        m.insert(key, idx);
        proof {
            let t1 = id_bits_seq(data@.take(i + 1));
            assert(t1.drop_last() =~= id_bits_seq(data@.take(i as int)));
            assert(t1.last() == (key, idx));
        }
        i = i + 1;
    }
    proof {
        assert(data@.take(data@.len() as int) =~= data@);
    }
    m
}

/// Looks every identifier's 128-bit value up in `m` and checks that the
/// retrieved index is the one paired at generation.
pub fn check_u128_lookups(m: &HashMap<u128, usize>, data: &Vec<(uuid::Uuid, usize)>) -> (ok: bool)
    ensures
        ok == pairs_found(m@, id_bits_seq(data@)),
{
    let ghost s = id_bits_seq(data@);
    let mut ok = true;
    let mut i: usize = 0;
    while i < data.len()
        invariant
            i <= data@.len(),
            s == id_bits_seq(data@),
            ok == (forall|j: int| 0 <= j < i ==> m@.contains_pair((#[trigger] s[j]).0, s[j].1)),
        decreases data@.len() - i,
    {
        let key: u128 = data[i].0.as_u128();
        let expected: usize = data[i].1;
        let hit = match m.get(&key) {
            Some(v) => *v == expected,
            None => false,
        };
        proof {
            assert(hit == m@.contains_pair(s[i as int].0, s[i as int].1));
        }
        ok = ok && hit;
        i = i + 1;
    }
    ok
}

/// One pass of the raw-128-bit-key trial: build the table, then check every
/// lookup. A dataset with pairwise-distinct identifiers always passes.
pub fn u128_trial(data: &Vec<(uuid::Uuid, usize)>) -> (ok: bool)
    ensures
        ok == pairs_found(table_of(id_bits_seq(data@)), id_bits_seq(data@)),
        distinct_keys(id_bits_seq(data@)) ==> ok,
{
    let m = build_u128_table(data);
    let ok = check_u128_lookups(&m, data);
    proof {
        if distinct_keys(id_bits_seq(data@)) {
            lemma_distinct_keys_lookup(id_bits_seq(data@));
        }
    }
    ok
}

/// Relies on std::collections::HashMap::insert with uuid::Uuid keys: Uuid's
/// derived Eq and Hash are structural and deterministic, so the table
/// behaves as a map keyed by UUID value equality.
#[verifier::external_body]
fn uuid_map_insert(m: &mut HashMap<uuid::Uuid, usize>, k: uuid::Uuid, v: usize)
    ensures
        final(m)@ == old(m)@.insert(k, v),
{
    m.insert(k, v);
}

/// Relies on std::collections::HashMap::get with uuid::Uuid keys, on the
/// same grounds as the insert above.
#[verifier::external_body]
fn uuid_map_get<'a>(m: &'a HashMap<uuid::Uuid, usize>, k: &uuid::Uuid) -> (r: Option<&'a usize>)
    ensures
        match r {
            Some(v) => m@.contains_key(*k) && *v == m@[*k],
            None => !m@.contains_key(*k),
        },
{
    m.get(k)
}

/// Builds a table keyed by the identifier itself, using the standard map
/// with its default hash function.
pub fn build_uuid_table(data: &Vec<(uuid::Uuid, usize)>) -> (m: HashMap<uuid::Uuid, usize>)
    ensures
        m@ == table_of(data@),
{
    let mut m: HashMap<uuid::Uuid, usize> = HashMap::new();
    let mut i: usize = 0;
    while i < data.len()
        invariant
            i <= data@.len(),
            m@ == table_of(data@.take(i as int)),
        decreases data@.len() - i,
    {
        let pair = data[i];
        uuid_map_insert(&mut m, pair.0, pair.1);
        proof {
            assert(data@.take(i + 1).drop_last() =~= data@.take(i as int));
        }
        i = i + 1;
    }
    proof {
        assert(data@.take(data@.len() as int) =~= data@);
    }
    m
}

/// Looks every identifier up in `m` and checks that the retrieved index is
/// the one paired at generation.
pub fn check_uuid_lookups(m: &HashMap<uuid::Uuid, usize>, data: &Vec<(uuid::Uuid, usize)>) -> (ok:
    bool)
    ensures
        ok == pairs_found(m@, data@),
{
    let mut ok = true;
    let mut i: usize = 0;
    while i < data.len()
        invariant
            i <= data@.len(),
            ok == (forall|j: int| 0 <= j < i ==> m@.contains_pair(
                (#[trigger] data@[j]).0,
                data@[j].1,
            )),
        decreases data@.len() - i,
    {
        let pair = data[i];
        let hit = match uuid_map_get(m, &pair.0) {
            Some(v) => *v == pair.1,
            None => false,
        };
        proof {
            assert(hit == m@.contains_pair(data@[i as int].0, data@[i as int].1));
        }
        ok = ok && hit;
        i = i + 1;
    }
    ok
}

/// One pass of the native-UUID-key trial: build the table, then check every
/// lookup. A dataset with pairwise-distinct identifiers always passes.
pub fn uuid_trial(data: &Vec<(uuid::Uuid, usize)>) -> (ok: bool)
    ensures
        ok == pairs_found(table_of(data@), data@),
        distinct_keys(id_bits_seq(data@)) ==> ok,
{
    let m = build_uuid_table(data);
    let ok = check_uuid_lookups(&m, data);
    proof {
        if distinct_keys(id_bits_seq(data@)) {
            lemma_distinct_bits_distinct_ids(data@);
            lemma_distinct_keys_lookup(data@);
        }
    }
    ok
}

} // verus!
