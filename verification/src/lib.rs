//! A benchmark harness for hash-map key strategies over 128-bit identifiers.
//!
//! The library compares default hashing of a UUID key, default hashing of a
//! raw 128-bit integer, and two identity-like strategies that fold a 128-bit
//! payload into a 64-bit hash by XOR-ing its halves. The table logic, the
//! dataset shape and the report lines are verified; timing and the hash-table
//! plumbing that needs outside trait impls live in the surrounding program.

pub mod driver;
pub mod ids;
pub mod keys;
pub mod runner;
pub mod table;
