//! Locates a project's declarative lint configuration, translates its three
//! severity categories into ordered command-line flags, and prepares the
//! argument list and exit-status interpretation for a delegated run of an
//! external static-analysis tool (`cargo clippy`).

pub mod config;
pub mod errors;
pub mod invoke;
pub mod lints;
pub mod locate;
