//! Supervisor for a single background daemon: locate its executable among a
//! fixed list of candidate paths, launch it detached, and poll its health
//! endpoint with a bounded retry budget until it is reachable or a timeout
//! is declared.
//!
//! The decisions are made here and are verified; the surrounding process
//! (the HTTP probe itself, process creation, the sleeps between polls) is
//! driven by an unverified shell that feeds the outcomes back in as plain
//! values.

pub mod health;
pub mod launcher;
pub mod orchestrator;
