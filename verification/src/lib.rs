//! Core of a JSON-RPC gating reverse proxy: a sorted allow-list of method
//! names with binary-search membership, classification of raw request bodies
//! against that list, and the per-request proxy state machine that decides
//! when a request may reach the backend and how its response is relayed.

pub mod bisect_set;
pub mod config;
pub mod error;
pub mod filter;
pub mod ordering;
