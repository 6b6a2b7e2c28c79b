//! Verified core of a launcher/supervisor for an external server binary.
//!
//! The crate holds the decision logic of the supervisor: deriving the
//! platform-specific binary name, building and de-duplicating the ordered
//! candidate list for binary resolution, selecting the first existing
//! candidate, permission/metadata findings, the pre-flight diagnosis verdict,
//! command-line construction for the launch, and the line-by-line shaping of
//! captured child output. All filesystem, environment and process access is
//! left to a thin unverified shell that feeds this crate plain values.

pub mod capture;
pub mod config;
pub mod diagnostics;
pub mod errors;
pub mod launcher;
pub mod locate;
pub mod platform;
pub mod strutil;
