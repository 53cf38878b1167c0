//! Diagnostic span resolution and per-buffer statement ledgers for an
//! editor that compiles several Datalog buffers into one chained biscuit
//! token and highlights which checks and policies passed or failed.

pub mod span;
pub mod ledger;
pub mod correlate;
pub mod source;
pub mod compile;
