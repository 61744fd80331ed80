//! A crafting economy: crafters combine materials that they own, following a
//! recipe, to produce a result with some probability.
//!
//! The modules, leaves first:
//!
//! - `address`: 32-byte identifiers of actors and kinds.
//! - `errors`: the errors and their classes.
//! - `entropy`: a reproducible 32-byte stream from outside entropy, an actor
//!   and a salted timestamp.
//! - `success`: the success rate of an attempt and the success roll.
//! - `outcome`: weighted selection of a result, rarity tiers, critical
//!   successes and interesting failures.
//! - `discovery`: thresholds and scores for the discovery of secret recipes.
//! - `ledger`: material balances with all-or-nothing batch debits.
//! - `recipe`, `registry`: recipes, the steps on them, and their store.
//! - `progression`, `tracker`: the profile of a crafter, its rules, and the
//!   store of all profiles.
//! - `config`: settings, the crafting fee and seasonal events.
//! - `crafting`: the record of an attempt and the steps that take it from
//!   its start to its outcome, one by one or all in one.
//! - `orchestrator`: the engine that holds all of these together.

pub mod address;
pub mod config;
pub mod crafting;
pub mod discovery;
pub mod entropy;
pub mod errors;
pub mod ledger;
pub mod orchestrator;
pub mod outcome;
pub mod progression;
pub mod recipe;
pub mod registry;
pub mod success;
pub mod tracker;
