//! Database modelling: queries, collections, documents and their fields.

pub mod aql;
pub mod normalize;
pub mod nullable_option;
pub mod collections;
pub mod documents;
pub mod config;
pub mod config_cache;
pub mod setup;
pub mod mapping;
pub mod indexes;
pub mod writes;
pub mod reference;
