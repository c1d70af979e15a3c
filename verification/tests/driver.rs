use std::collections::HashMap;
use std::hash::{BuildHasherDefault, Hash, Hasher};

use hashbench::driver::{
    timed_u128_build_trial, timed_u128_lookup_trial, timed_uuid_build_trial,
    timed_uuid_lookup_trial,
};
use hashbench::ids::generate_dataset;
use hashbench::keys::{xor_fold, U128Wrap2Hash};
use hashbench::runner::{run_test, trial_labels};
use hashbench::table::{build_u128_table, build_uuid_table, u128_trial, uuid_trial};
use nohash_hasher::IntMap;
use uuid::Uuid;

#[derive(PartialEq, Eq, Clone, Copy)]
struct NoHashKey(u128);

impl Hash for NoHashKey {
    fn hash<H: Hasher>(&self, state: &mut H) {
        state.write_u64(xor_fold(self.0));
    }
}

impl nohash_hasher::IsEnabled for NoHashKey {}

#[derive(PartialEq, Eq, Clone, Copy)]
struct ManualKey(u128);

impl Hash for ManualKey {
    fn hash<H: Hasher>(&self, state: &mut H) {
        state.write_u64(xor_fold(self.0));
    }
}

#[derive(Default)]
struct WordHasher(U128Wrap2Hash);

impl Hasher for WordHasher {
    fn finish(&self) -> u64 {
        self.0.finish()
    }

    fn write(&mut self, _bytes: &[u8]) {
        panic!("wrong usage of U128Wrap2Hash");
    }

    fn write_u64(&mut self, u: u64) {
        self.0.write_u64(u);
    }
}

fn small_dataset(n: usize) -> Vec<(Uuid, usize)> {
    let mut data: Vec<(Uuid, usize)> = Vec::new();
    for i in 0..n {
        data.push((Uuid::new_v4(), i));
    }
    data
}

fn build_nohash_table(data: &[(Uuid, usize)]) -> IntMap<NoHashKey, usize> {
    let mut m: IntMap<NoHashKey, usize> = IntMap::default();
    for (id, idx) in data {
        m.insert(NoHashKey(id.as_u128()), *idx);
    }
    m
}

fn check_nohash_lookups(m: &IntMap<NoHashKey, usize>, data: &[(Uuid, usize)]) -> bool {
    data.iter().all(|(id, idx)| m.get(&NoHashKey(id.as_u128())) == Some(idx))
}

fn build_manual_table(data: &[(Uuid, usize)]) -> HashMap<ManualKey, usize, BuildHasherDefault<WordHasher>> {
    let mut m: HashMap<ManualKey, usize, BuildHasherDefault<WordHasher>> = HashMap::default();
    for (id, idx) in data {
        m.insert(ManualKey(id.as_u128()), *idx);
    }
    m
}

fn check_manual_lookups(
    m: &HashMap<ManualKey, usize, BuildHasherDefault<WordHasher>>,
    data: &[(Uuid, usize)],
) -> bool {
    data.iter().all(|(id, idx)| m.get(&ManualKey(id.as_u128())) == Some(idx))
}

fn line_is_well_formed(line: &str, label: &str) -> bool {
    match line.strip_prefix(label) {
        Some(rest) => match rest.strip_prefix(" time: ") {
            Some(number) => match number.parse::<f64>() {
                Ok(seconds) => seconds >= 0.0,
                Err(_) => false,
            },
            None => false,
        },
        None => false,
    }
}

#[test]
fn six_trials_emit_six_well_formed_lines() {
    // The six-trial sequence of the driver, on a reduced dataset so that the
    // full iteration count stays fast enough for a test run.
    let data = small_dataset(64);
    let labels = trial_labels();
    let mut lines: Vec<String> = Vec::new();
    let mut all_ok = true;

    let (line, ok) = timed_uuid_build_trial(&data);
    lines.push(line);
    all_ok = all_ok && ok;

    let uuid_table = build_uuid_table(&data);
    let (line, ok) = timed_uuid_lookup_trial(&uuid_table, &data);
    lines.push(line);
    all_ok = all_ok && ok;

    let (line, ok) = timed_u128_build_trial(&data);
    lines.push(line);
    all_ok = all_ok && ok;

    let u128_table = build_u128_table(&data);
    let (line, ok) = timed_u128_lookup_trial(&u128_table, &data);
    lines.push(line);
    all_ok = all_ok && ok;

    let (line, ok) = run_test(labels[4], || {
        let m = build_nohash_table(&data);
        check_nohash_lookups(&m, &data)
    });
    lines.push(line);
    all_ok = all_ok && ok;

    let nohash_table = build_nohash_table(&data);
    let (line, ok) = run_test(labels[5], || check_nohash_lookups(&nohash_table, &data));
    lines.push(line);
    all_ok = all_ok && ok;

    assert!(all_ok);
    assert_eq!(lines.len(), 6);
    for (line, label) in lines.iter().zip(labels.iter()) {
        assert!(line_is_well_formed(line, label), "bad line: {}", line);
    }
}

#[test]
fn all_four_strategies_pass_one_full_size_pass() {
    let data = generate_dataset();
    assert!(uuid_trial(&data));
    assert!(u128_trial(&data));
    let nohash_table = build_nohash_table(&data);
    assert!(check_nohash_lookups(&nohash_table, &data));
    let manual_table = build_manual_table(&data);
    assert!(check_manual_lookups(&manual_table, &data));
}

#[test]
fn manual_hasher_table_answers_every_lookup() {
    let data = small_dataset(256);
    let m = build_manual_table(&data);
    assert!(check_manual_lookups(&m, &data));
    let absent = ManualKey(Uuid::new_v4().as_u128());
    assert_eq!(m.get(&absent), None);
}
