//! Native-side provisioning core for the Hakawati desktop application.
//!
//! The library locates the application's database file, derives the
//! connection descriptor the embedded-database driver consumes, holds the
//! build-time migration registry, and decides which migrations a startup
//! must apply and in what order. The host shell performs the actual
//! filesystem and database calls and feeds their outcomes back to the
//! runner.

pub mod errors;
pub mod greeting;
pub mod locator;
pub mod migration;
pub mod model;
pub mod runner;
