//! Helpers for writing declarative reconciliation logic: status condition
//! bookkeeping, owner-reference maintenance, and a create-or-update
//! convergence step, together with small builders for the surrounding
//! resource fields.

pub mod conditions;
pub mod config;
pub mod container;
pub mod entries;
pub mod env;
pub mod meta;
pub mod ports;
pub mod process;
pub mod resources;
pub mod selectors;
pub mod tracker;
pub mod utils;
pub mod value;
pub mod volumes;
