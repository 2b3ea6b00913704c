//! A verified object-transfer gateway core.
//!
//! The library moves byte payloads between local storage and a remote
//! object store and fetches externally sourced content. It provides a
//! credential provider, a storage client facade over an explicit bucket
//! model, a streaming transfer engine with byte accounting, a content
//! fetcher with deterministic URL derivation, and a closed error
//! taxonomy that classifies every failure into a stable outcome class.

pub mod bucket;
pub mod config;
pub mod credentials;
pub mod errors;
pub mod facade;
pub mod fetcher;
pub mod transfer;
