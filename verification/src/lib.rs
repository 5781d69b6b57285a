//! Keeps a workstation awake by simulating small, boundary-aware cursor
//! movements and by holding platform power-management inhibition locks.
//!
//! The crate is organised around two verified cores:
//! - [`offset_generator`] computes the next cursor position so that it never
//!   leaves the configured working rectangle;
//! - [`power`] models the acquisition and release of OS "do not sleep"
//!   requests, including rollback when a multi-kind request fails part way.

pub mod config;
pub mod models;
pub mod offset_generator;
pub mod power;
