//! Dispatch core of an error-reporting client: a bounded queue of items,
//! a single delivery worker's decisions, an outcome tracker and the
//! shutdown protocol that drains pending work and reports failures.
pub mod config;
pub mod error;
pub mod greeting;
pub mod instance;
pub mod item;
pub mod json;
pub mod lemmas;
pub mod queue;
pub mod tracker;
pub mod transport;
