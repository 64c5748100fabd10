//! Resolution of user-facing SSH host-key algorithm names and construction of
//! a runtime-ready outbound SSH handler configuration.
//!
//! The library maps free-text algorithm names (wire names and their short
//! aliases) to a closed, canonical set of identifiers, dropping unrecognized
//! names in place, and copies every other configuration field verbatim.

pub mod algorithm;
pub mod config;
