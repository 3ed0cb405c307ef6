//! A reconciliation engine for container lifecycle records.
//!
//! Records describe workload containers that an external runtime is expected
//! to create, start, monitor and eventually tear down.  The engine interprets
//! a record's status, decides which runtime action is due, and computes the
//! store update that follows from the action's outcome.  Every decision is a
//! pure function with a proved contract; the surrounding process supplies the
//! runtime driver, the record store and the polling loop.

pub mod config;
pub mod engine;
pub mod laws;
pub mod record;
pub mod status;
pub mod text;
