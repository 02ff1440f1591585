//! Keeps a single locally installed application binary in sync with its latest
//! published release.
//!
//! The library holds the decision logic of the updater: resolving the install
//! directory, selecting the latest release from a release list, judging whether
//! the local binary is stale, and locating the asset to download. All network
//! and filesystem traffic stays with the caller, which hands the library plain
//! values and carries out the plan it returns.

pub mod config;
pub mod errors;
pub mod paths;
pub mod pipeline;
pub mod release;
pub mod staleness;
pub mod timestamp;
