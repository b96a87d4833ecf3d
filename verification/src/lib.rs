//! Schema model and migration engine for a rhythm-game ranking database.
//!
//! The crate describes the database schema — domain enumerations, table
//! definitions, foreign-key edges and secondary indexes — as plain data
//! ([`catalog`], [`tables`], [`schema`]), derives ordered, backend-aware
//! migration plans from it ([`migration`], gated by [`backend`]), and
//! models the data-level guarantees the schema provides ([`store`],
//! [`records`]): composite-key uniqueness, unique columns, foreign-key
//! enforcement, cascading deletes, current-best upserts, and the pairing
//! of every score row with exactly one extension row.

pub mod backend;
pub mod catalog;
pub mod enums;
pub mod migration;
pub mod records;
pub mod schema;
pub mod store;
pub mod tables;
