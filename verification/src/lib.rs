//! A single-worker launcher with nested fault isolation.
//!
//! One worker thread runs a fixed script: a timed sleep, a cooperative yield,
//! then a guarded scope executed under a fault-catching boundary. A fault
//! raised inside that boundary is absorbed and turned into a tagged outcome;
//! a fault raised outside it terminates the worker, and the launcher's wait
//! must then fail loudly. The modules here hold every decision of that
//! protocol; the thread primitives themselves (spawn, sleep, yield, the
//! unwind barrier, join) are performed by the unverified driver, which feeds
//! their results back in as plain values.

pub mod guard;
pub mod launch;
pub mod laws;
pub mod script;
