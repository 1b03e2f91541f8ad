//! A verified model of a cross-platform bootstrap run: it plans the exact
//! external commands to issue (environment creation, OCR tool installation,
//! a pinned dependency manifest, verification checks), classifies command
//! outcomes, and drives the whole run as a state machine. Spawning the
//! commands themselves is left to an unverified shell around this crate.

pub mod command;
pub mod orchestrator;
pub mod plan;
pub mod platform;
pub mod text;
