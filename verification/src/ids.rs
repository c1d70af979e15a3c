//! Random 128-bit identifiers and the benchmark dataset.
//!
//! Identifiers are version-4 UUIDs from the `uuid` crate. In contracts a UUID
//! is read through `uuid_bits`, the 128-bit integer that `Uuid::as_u128`
//! reports; the dataset pairs each fresh identifier with its position.

use vstd::prelude::*;

verus! {

/// Number of identifier/index pairs in the benchmark dataset.
pub const DATA_SIZE: usize = 10000;

#[verifier::external_type_specification]
#[verifier::external_body]
pub struct ExUuid(uuid::Uuid);

/// The 128 bits of a UUID, as `uuid::Uuid::as_u128` reports them.
pub uninterp spec fn uuid_bits(u: uuid::Uuid) -> u128;

/// Relies on uuid::Uuid::as_u128: the UUID's sixteen bytes read as one
/// big-endian 128-bit integer, a function of the UUID value alone.
pub assume_specification[ uuid::Uuid::as_u128 ](u: &uuid::Uuid) -> (r: u128)
    ensures
        r == uuid_bits(*u),
;

/// Whether a 128-bit identifier carries the version-4 UUID markers: version
/// nibble 4 and the RFC 4122 variant.
pub open spec fn is_v4_bits(bits: u128) -> bool {
    &&& (bits >> 76) & 0xf == 4
    &&& (bits >> 62) & 0x3 == 2
}

/// Relies on uuid::Uuid::new_v4: a fresh random UUID. Whatever randomness
/// came back, the version nibble is 4 and the variant is RFC 4122.
pub assume_specification[ uuid::Uuid::new_v4 ]() -> (u: uuid::Uuid)
    ensures
        is_v4_bits(uuid_bits(u)),
;

/// Builds the shared dataset: `DATA_SIZE` pairs of a freshly generated
/// identifier and its sequential index, starting at 0.
pub fn generate_dataset() -> (data: Vec<(uuid::Uuid, usize)>)
    ensures
        data@.len() == DATA_SIZE,
        forall|i: int| 0 <= i < data@.len() ==> (#[trigger] data@[i]).1 == i,
        forall|i: int| 0 <= i < data@.len() ==> is_v4_bits(uuid_bits((#[trigger] data@[i]).0)),
{
    let mut data: Vec<(uuid::Uuid, usize)> = Vec::new();
    let mut i: usize = 0;
    while i < DATA_SIZE
        invariant
            i <= DATA_SIZE,
            data@.len() == i,
            forall|j: int| 0 <= j < data@.len() ==> (#[trigger] data@[j]).1 == j,
            forall|j: int| 0 <= j < data@.len() ==> is_v4_bits(uuid_bits((#[trigger] data@[j]).0)),
        decreases DATA_SIZE - i,
    {
        let id = uuid::Uuid::new_v4();
        data.push((id, i));
        i = i + 1;
    }
    data
}

} // verus!
