//! The configuration of the API stored in the configuration collection.

use vstd::prelude::*;

verus! {

/// The configuration of the public API.
#[derive(Debug, Clone)]
pub struct APIConfig {
    pub port: u16,
    pub filtering: APIFilteringConfig,
}

/// The limits on the filters users may send, for common users and for admins.
#[derive(Debug, Clone, Default)]
pub struct APIFilteringConfig {
    pub general: APIFilteringStatsConfig,
    pub admin: APIFilteringStatsConfig,
}

/// How many fields, constants, expressions and functions one filter may hold.
#[derive(Debug, Clone, Default)]
pub struct APIFilteringStatsConfig {
    pub field_count: usize,
    pub const_count: usize,
    pub expression_count: usize,
    pub function_count: usize,
}

/// The API part of the default configuration of the system: port 3003;
/// common users may filter with 3 fields, 10 constants, 3 expressions and
/// 6 functions, admins with 20, 30, 10 and 20.
pub fn default_api_configuration() -> (r: APIConfig)
    ensures
        r.port == 3003,
        r.filtering.general.field_count == 3,
        r.filtering.general.const_count == 10,
        r.filtering.general.expression_count == 3,
        r.filtering.general.function_count == 6,
        r.filtering.admin.field_count == 20,
        r.filtering.admin.const_count == 30,
        r.filtering.admin.expression_count == 10,
        r.filtering.admin.function_count == 20,
{
    APIConfig {
        port: 3003,
        filtering: APIFilteringConfig {
            general: APIFilteringStatsConfig {
                field_count: 3,
                const_count: 10,
                expression_count: 3,
                function_count: 6,
            },
            admin: APIFilteringStatsConfig {
                field_count: 20,
                const_count: 30,
                expression_count: 10,
                function_count: 20,
            },
        },
    }
}

/// How long the configuration collection's document is cached, in seconds.
#[derive(Debug, Clone, Copy, PartialEq, Eq, Structural)]
pub struct ConfigurationCollectionConfig {
    pub cache_expiration: u64,
}

/// The settings of each collection.
#[derive(Debug, Clone, Copy, PartialEq, Eq, Structural)]
pub struct CollectionsConfig {
    pub configuration: ConfigurationCollectionConfig,
}

/// The database part of the configuration: how long fields live, in seconds
/// (`field_expiration`) and in months (`long_field_expiration`), and the
/// settings of the collections.
#[derive(Debug, Clone, Copy, PartialEq, Eq, Structural)]
pub struct DatabaseConfig {
    pub field_expiration: u64,
    pub long_field_expiration: u64,
    pub collections: CollectionsConfig,
}

/// The database part of the default configuration of the system: fields
/// live 30 days (2592000 seconds), long-lived ones 12 months, and the
/// configuration is cached for 15 minutes (900 seconds).
pub fn default_database_configuration() -> (r: DatabaseConfig)
    ensures
        r.field_expiration == 2592000,
        r.long_field_expiration == 12,
        r.collections.configuration.cache_expiration == 900,
{
    DatabaseConfig {
        field_expiration: 2592000,
        long_field_expiration: 12,
        collections: CollectionsConfig { configuration: ConfigurationCollectionConfig { cache_expiration: 900 } },
    }
}

/// The configuration document of the database: its key, its revision, and
/// its database and API parts.
#[derive(Debug, Clone)]
pub struct ConfigDocument {
    pub db_key: Option<String>,
    pub db_rev: Option<String>,
    pub database: DatabaseConfig,
    pub api: APIConfig,
}

/// The API part of the default configuration.
pub open spec fn default_api() -> APIConfig {
    APIConfig {
        port: 3003,
        filtering: APIFilteringConfig {
            general: APIFilteringStatsConfig { field_count: 3, const_count: 10, expression_count: 3, function_count: 6 },
            admin: APIFilteringStatsConfig {
                field_count: 20,
                const_count: 30,
                expression_count: 10,
                function_count: 20,
            },
        },
    }
}

/// The database part of the default configuration.
pub open spec fn default_database() -> DatabaseConfig {
    DatabaseConfig {
        field_expiration: 2592000,
        long_field_expiration: 12,
        collections: CollectionsConfig { configuration: ConfigurationCollectionConfig { cache_expiration: 900 } },
    }
}

/// The configuration document a new database starts with: stored under the
/// key `configuration_id`, without revision, with the default database and
/// API parts.
pub fn create_default_configuration(configuration_id: String) -> (r: ConfigDocument)
    ensures
        r.db_key == Some(configuration_id),
        r.db_rev is None,
        r.database == default_database(),
        r.api == default_api(),
{
    ConfigDocument {
        db_key: Some(configuration_id),
        db_rev: None,
        database: default_database_configuration(),
        api: default_api_configuration(),
    }
}

} // verus!
