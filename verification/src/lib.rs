//! A reflex-trial engine: it presents a target symbol among decoy symbols,
//! resolves each trial from discrete clicks or continuous pointer dwell,
//! adapts the trial timeout over a session, and aggregates per-block
//! statistics into a write-once ledger.
//!
//! The engine is a pure state machine.  A presentation shell drives it with
//! `Event`s (ticks and pointer/click input) and renders the read-only
//! `ViewModel` snapshot; randomness for round generation comes from an
//! injected `Entropy` source.

pub mod config;
pub mod entropy;
pub mod tally;
pub mod engine;
pub mod laws;
pub mod trial;
