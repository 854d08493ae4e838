//! A genealogy registry for generated entities: it seals each entity's
//! defining data into a cryptographic commitment, issues identity records,
//! and tracks parent/child lineage across successive evolutions, under
//! singleton-registry, monotonic-counter and bounded-capacity invariants.

pub mod brc20_builders;
pub mod cli_rules;
pub mod commitment;
pub mod inscription;
pub mod registry;
