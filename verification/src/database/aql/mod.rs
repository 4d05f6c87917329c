//! A builder of AQL queries (the query language of ArangoDB).

use vstd::prelude::*;

pub mod steps;
pub mod json;
pub mod builder;

pub use steps::{AqlCollect, AqlInsert, AqlLimit, AqlRemove, AqlReplace, AqlReturn, AqlSort, AqlUpdate, AqlUpsert};
pub use json::OverwriteMode;
pub use builder::{
    get_aql_inline_variable, variable_name, AqlBuilder, AqlError, AqlKind, AqlLet, AqlLetKind,
    AQL_MAX_VARIABLES,
};

verus! {

pub const AQL_COLLECTION_ID: &'static str = "@collection";
pub const AQL_DOCUMENT_ID: &'static str = "i";
pub const AQL_OLD_ID: &'static str = "OLD";
pub const AQL_NEW_ID: &'static str = "NEW";

} // verus!
