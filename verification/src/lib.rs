//! A two-party signed-value comparison state machine.
//!
//! Two participants each submit a signed 32-bit value into one of two
//! singleton slots; each submission is authenticated against the supplied
//! public key and message before the slot is overwritten. Once both slots
//! are populated, a comparison reports the address holding the larger
//! value, with ties resolved in favor of slot B.

pub mod api;
pub mod contract;
pub mod error;
pub mod msg;
pub mod state;
