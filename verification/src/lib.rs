//! The run-lifecycle and artifact-retrieval engine of a client for a
//! remote mobile test-execution service: submitting a run from uploaded
//! bundles, polling it to a terminal state, discovering and fetching its
//! artifact tree under a concurrency bound with retries, and deciding the
//! process outcome.
//!
//! The library holds every decision and transformation with its contract;
//! the network and filesystem calls that drive these machines live with
//! the embedding program.

pub mod android;
pub mod api;
pub mod artifacts;
pub mod bundle;
pub mod cli;
pub mod errors;
pub mod filtering;
pub mod formatter;
pub mod hash;
pub mod interactor;
pub mod io;
pub mod ios;
pub mod progress;
pub mod pull;
pub mod strutil;
