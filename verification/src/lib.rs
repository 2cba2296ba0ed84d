//! Verified core of a docker-compose project manager.
//!
//! Projects (sets of compose files registered under a short alias) are
//! described by [`config::ComposeItem`]. The library translates parsed
//! command-line flags into the exact argument vector handed to the external
//! `docker compose` binary, and classifies aggregate project status from
//! container counts. Running the external binary, parsing the configuration
//! file and rendering tables are left to the surrounding application.

use vstd::prelude::*;

pub mod argv;
pub mod check;
pub mod command;
pub mod config;
pub mod docker;
pub mod infos;
pub mod system;

verus! {

/// Errors of the library itself.
#[derive(Debug, Clone, Copy, PartialEq, Eq, Structural)]
pub enum DctlError {
    /// No registered project carries the requested alias.
    AliasNotFound,
}

} // verus!
