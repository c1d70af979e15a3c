//! The timed trials over the library's own key strategies.
//!
//! Each function here is one of the driver's timed trials: it hands the
//! trial's operation to `run_test` under the trial's fixed label. The
//! reported flag equals the trial's correctness check — every pair of the
//! dataset found in the table exactly as paired — so for a dataset with
//! pairwise-distinct identifiers the flag is guaranteed `true` and the
//! correctness assertion cannot fire.

use vstd::prelude::*;
use std::collections::HashMap;
use crate::runner::{line_spec, run_test};
use crate::table::{
    check_u128_lookups, check_uuid_lookups, distinct_keys, id_bits_seq, pairs_found, table_of,
    u128_trial, uuid_trial,
};

verus! {

/// Build-and-lookup trial over native UUID keys with the default hash.
pub fn timed_uuid_build_trial(data: &Vec<(uuid::Uuid, usize)>) -> (res: (String, bool))
    ensures
        exists|n: nat| res.0@ == line_spec("uuid default hash"@, n),
        res.1 == pairs_found(table_of(data@), data@),
        distinct_keys(id_bits_seq(data@)) ==> res.1,
{
    let f = || -> (b: bool)
        ensures
            b == pairs_found(table_of(data@), data@),
        { uuid_trial(data) };
    let res = run_test("uuid default hash", f);
    proof {
        if pairs_found(table_of(data@), data@) {
            assert(forall|b: bool| call_ensures(f, (), b) ==> b);
        } else {
            assert(forall|b: bool| call_ensures(f, (), b) ==> !b);
        }
        if distinct_keys(id_bits_seq(data@)) {
            crate::table::lemma_distinct_bits_distinct_ids(data@);
            crate::table::lemma_distinct_keys_lookup(data@);
        }
    }
    res
}

/// Lookup-only trial over native UUID keys against a pre-built table.
pub fn timed_uuid_lookup_trial(
    table: &HashMap<uuid::Uuid, usize>,
    data: &Vec<(uuid::Uuid, usize)>,
) -> (res: (String, bool))
    ensures
        exists|n: nat| res.0@ == line_spec("uuid default hash, no write"@, n),
        res.1 == pairs_found(table@, data@),
{
    let f = || -> (b: bool)
        ensures
            b == pairs_found(table@, data@),
        { check_uuid_lookups(table, data) };
    let res = run_test("uuid default hash, no write", f);
    proof {
        if pairs_found(table@, data@) {
            assert(forall|b: bool| call_ensures(f, (), b) ==> b);
        } else {
            assert(forall|b: bool| call_ensures(f, (), b) ==> !b);
        }
    }
    res
}

/// Build-and-lookup trial over raw 128-bit keys with the default hash.
pub fn timed_u128_build_trial(data: &Vec<(uuid::Uuid, usize)>) -> (res: (String, bool))
    ensures
        exists|n: nat| res.0@ == line_spec("u128 default hash"@, n),
        res.1 == pairs_found(table_of(id_bits_seq(data@)), id_bits_seq(data@)),
        distinct_keys(id_bits_seq(data@)) ==> res.1,
{
    let f = || -> (b: bool)
        ensures
            b == pairs_found(table_of(id_bits_seq(data@)), id_bits_seq(data@)),
        { u128_trial(data) };
    let res = run_test("u128 default hash", f);
    proof {
        if pairs_found(table_of(id_bits_seq(data@)), id_bits_seq(data@)) {
            assert(forall|b: bool| call_ensures(f, (), b) ==> b);
        } else {
            assert(forall|b: bool| call_ensures(f, (), b) ==> !b);
        }
        if distinct_keys(id_bits_seq(data@)) {
            crate::table::lemma_distinct_keys_lookup(id_bits_seq(data@));
        }
    }
    res
}

/// Lookup-only trial over raw 128-bit keys against a pre-built table.
pub fn timed_u128_lookup_trial(
    table: &HashMap<u128, usize>,
    data: &Vec<(uuid::Uuid, usize)>,
) -> (res: (String, bool))
    ensures
        exists|n: nat| res.0@ == line_spec("u128 default hash, no write"@, n),
        res.1 == pairs_found(table@, id_bits_seq(data@)),
{
    let f = || -> (b: bool)
        ensures
            b == pairs_found(table@, id_bits_seq(data@)),
        { check_u128_lookups(table, data) };
    let res = run_test("u128 default hash, no write", f);
    proof {
        if pairs_found(table@, id_bits_seq(data@)) {
            assert(forall|b: bool| call_ensures(f, (), b) ==> b);
        } else {
            assert(forall|b: bool| call_ensures(f, (), b) ==> !b);
        }
    }
    res
}

} // verus!
