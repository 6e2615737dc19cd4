//! Ingestion and dispatch core of an anti-cheat platform: authentication,
//! the registration check, batch key derivation, finding aggregation, module
//! health, transform selection, webhook rules and retention cutoffs.
pub mod auth;
pub mod builtin_modules;
pub mod cleanup;
pub mod config;
pub mod dashboard;
pub mod error;
pub mod findings;
pub mod health;
pub mod ingest;
pub mod numbers;
pub mod object_store;
pub mod observations;
pub mod ping;
pub mod players;
pub mod registration;
pub mod responses;
pub mod text;
pub mod tracking;
pub mod transform;
pub mod webhooks;
