//! Local persistence and worker orchestration behind a desktop application
//! that keeps a graph of social accounts.
//!
//! The library owns a single-file relational store and the decisions around
//! a companion worker process:
//!
//! - [`store`] is the graph repository: accounts, which merge on (username,
//!   platform); relations, which are only ever appended; connected pairs,
//!   which merge on the pair in canonical order; and arbitrary statements.
//!   [`commands`] offers the same operations on a store slot that may be
//!   empty.
//! - [`statements`] holds the statements and what is bound to them, [`pairs`]
//!   the canonical order of a pair, [`values`] and [`rows`] the textual form
//!   in which rows are handed to the display layer.
//! - [`proxy`] plans the request that forwards a method, a path and a body
//!   to the worker.
//! - [`worker`] locates the worker's entry and plans its start.
//! - [`engine`] and [`clock`] are the boundary to the storage engine and to
//!   the system clock.
//!
//! The library performs no file, network or process operation of its own
//! beyond the calls into the storage engine: the caller reads the
//! environment, sends the planned request, and starts and stops the worker.

pub mod clock;
pub mod commands;
pub mod engine;
pub mod errors;
pub mod pairs;
pub mod proxy;
pub mod rows;
pub mod statements;
pub mod store;
pub mod values;
pub mod worker;
