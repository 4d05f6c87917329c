//! Shared building blocks of the backend: the AQL query builder, nullable
//! document fields and their normalization, collection and document names,
//! game data and small validators.

pub mod text;
pub mod database;
pub mod data;
pub mod clients;
pub mod config;
