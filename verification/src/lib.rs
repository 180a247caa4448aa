//! A single-node supervisor core: it derives a census snapshot from
//! versioned rumor stores, merges census updates with OS signals and
//! package-update hand-offs, and drives service process lifecycles,
//! one reconciliation tick at a time.

pub mod census;
pub mod error;
pub mod manager;
pub mod package;
pub mod service;
pub mod signals;
pub mod supervisor;
pub mod updater;
pub mod users;
