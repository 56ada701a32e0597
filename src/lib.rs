//! Persistence of access-control policy rules in a relational table.
//!
//! The library turns policy rules into fixed-width rows and back, builds the
//! statements that load, insert and delete them, and decides, statement by
//! statement, how a batch of mutations runs inside one transaction. The
//! caller owns the database connection and executes what the library plans.
pub mod models;
pub mod utils;
pub mod actions;
pub mod sql;
pub mod schema;
pub mod filter;
pub mod engine;
pub mod loader;
pub mod adapter;

pub use models::CasbinRule;
