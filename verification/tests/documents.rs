use commons::database::config::{create_default_configuration, ConfigDocument};
use commons::database::config_cache::configuration_lookup_query;
use commons::database::setup::authentication_token_write;
use commons::database::setup::{collections_to_create, function_name, AqlFunctionRequest, DATABASE_NAME};
use commons::database::config_cache::ConfigCollectionCache;
use commons::database::collections::CollectionKind;
use commons::database::indexes::{collection_indexes, IndexSettings};
use commons::database::writes::{
    check_client_error_to_retry, key_conflict, DBRequestError, DocumentWrite, WriteRetries,
    WriteStep, MAX_INSERT_RETRIES,
};
use commons::database::aql::OverwriteMode;

#[test]
fn bet_indexes() {
    let indexes = collection_indexes(CollectionKind::Bets, "n");
    let names: Vec<&str> = indexes.iter().map(|i| i.name).collect();
    assert_eq!(names, vec!["MutexIndex", "ParticipantAddress", "ChallengeAddress", "TTLIndex"]);
    assert_eq!(indexes[0].fields, vec!["_l.n".to_string()]);
    assert_eq!(
        indexes[0].settings,
        IndexSettings::Persistent { unique: false, sparse: true, deduplicate: false }
    );
    assert_eq!(indexes[1].fields, vec!["P".to_string()]);
    assert_eq!(indexes[2].fields, vec!["C".to_string()]);
    assert_eq!(indexes[3].fields, vec!["X".to_string()]);
    assert_eq!(indexes[3].settings, IndexSettings::Ttl { expire_after: 0 });
}

#[test]
fn other_collection_indexes() {
    assert!(collection_indexes(CollectionKind::Configuration, "n").is_empty());
    let mutexes = collection_indexes(CollectionKind::Mutexes, "node");
    assert_eq!(mutexes.len(), 1);
    assert_eq!(mutexes[0].fields, vec!["_l.node".to_string()]);
    let auth = collection_indexes(CollectionKind::Authentications, "n");
    assert_eq!(auth.len(), 2);
    assert_eq!(auth[0].name, "TTLIndex");
    assert_eq!(auth[1].name, "AuthorizationAddress");
    assert_eq!(auth[1].fields, vec!["A".to_string()]);
    assert_eq!(
        auth[1].settings,
        IndexSettings::Persistent { unique: true, sparse: false, deduplicate: false }
    );
    let emails = collection_indexes(CollectionKind::Emails, "n");
    assert_eq!(emails.len(), 1);
    assert_eq!(emails[0].name, "Email");
    assert_eq!(emails[0].fields, vec!["E".to_string()]);
    assert_eq!(collection_indexes(CollectionKind::Challenges, "n").len(), 2);
    assert_eq!(collection_indexes(CollectionKind::Participants, "n").len(), 1);
    assert_eq!(collection_indexes(CollectionKind::Signatures, "n")[0].name, "TTLIndex");
}

fn arango(error_num: u16, message: &str) -> DBRequestError {
    DBRequestError::Arango { error_num, message: message.to_string() }
}

#[test]
fn only_conflicts_are_retried() {
    assert_eq!(check_client_error_to_retry(arango(1200, "conflict")), Ok(()));
    assert_eq!(
        check_client_error_to_retry(arango(1210, "unique constraint violated")),
        Err(arango(1210, "unique constraint violated"))
    );
    assert_eq!(check_client_error_to_retry(DBRequestError::Other), Err(DBRequestError::Other));
    assert!(key_conflict(&arango(1210, "unique constraint violated - in index primary of type primary over '_key'")));
    assert!(!key_conflict(&arango(1210, "unique constraint violated over 'E'")));
    assert!(!key_conflict(&arango(1200, "_key")));
}

#[test]
fn insert_takes_new_keys() {
    let conflict = arango(1210, "conflicting key: _key");
    let mut retries = DocumentWrite::Insert { overwrite: false }.retries();
    for _ in 0..10 {
        assert_eq!(retries.on_error(conflict.clone()), WriteStep::RetryWithNewKey);
    }
    let mut overwriting = DocumentWrite::Insert { overwrite: true }.retries();
    assert_eq!(overwriting.on_error(conflict.clone()), WriteStep::Fail(conflict.clone()));
    assert_eq!(overwriting.on_error(arango(1200, "")), WriteStep::Retry);
}

#[test]
fn insert_and_ignore_gives_up() {
    let conflict = arango(1210, "_key taken");
    let mut retries = WriteRetries::for_insert_and_ignore(false);
    for _ in 1..MAX_INSERT_RETRIES {
        assert_eq!(retries.on_error(conflict.clone()), WriteStep::RetryWithNewKey);
    }
    assert_eq!(retries.on_error(conflict.clone()), WriteStep::Fail(conflict));
}

#[test]
fn write_options() {
    let insert = DocumentWrite::Insert { overwrite: true }.options();
    assert_eq!(insert.return_new, Some(true));
    assert_eq!(insert.overwrite, Some(true));
    assert_eq!(insert.overwrite_mode, Some(OverwriteMode::Replace));
    assert_eq!(insert.keep_null, Some(false));
    let upsert = DocumentWrite::InsertOrUpdateAndIgnore { merge_objects: true }.options();
    assert_eq!(upsert.overwrite_mode, Some(OverwriteMode::Update));
    assert_eq!(upsert.silent, Some(true));
    assert_eq!(upsert.merge_objects, Some(true));
    let update = DocumentWrite::Update { merge_objects: false, has_rev: false }.options();
    assert_eq!(update.ignore_revs, Some(true));
    assert_eq!(update.overwrite, None);
    let remove = DocumentWrite::RemoveAndIgnore.options();
    assert_eq!(remove.return_old, Some(false));
    assert_eq!(remove.silent, Some(true));
    assert!(DocumentWrite::InsertOrUpdate { merge_objects: false }.creates_key());
    assert!(!DocumentWrite::Remove.creates_key());
}

#[test]
fn configuration_cache_expires() {
    let mut cache = ConfigCollectionCache::new("first");
    assert!(cache.needs_reload(0));
    assert!(cache.needs_reload(u64::MAX));
    cache.store("second", 1_000, 60);
    assert_eq!(cache.document, "second");
    assert_eq!(cache.expiration, Some(61_000));
    assert!(!cache.needs_reload(1_000));
    assert!(!cache.needs_reload(61_000));
    assert!(cache.needs_reload(61_001));
}

#[test]
fn database_setup() {
    assert_eq!(DATABASE_NAME, "GMIData");
    let kinds = collections_to_create();
    assert_eq!(kinds.len(), 7);
    assert!(!kinds.contains(&CollectionKind::Configuration));
    assert_eq!(kinds[0], CollectionKind::Mutexes);
    assert_eq!(kinds[6], CollectionKind::Emails);
    assert_eq!(function_name("calc"), "gmifn::calc");
    assert_eq!(AqlFunctionRequest::Add.url("http://db:8529/_db/GMIData/"), "http://db:8529/_db/GMIData/_api/aqlfunction");
    assert_eq!(
        AqlFunctionRequest::RemoveAll.url("http://db/"),
        "http://db/_api/aqlfunction/gmifn?group=true"
    );
    assert!(AqlFunctionRequest::Add.accepted(201));
    assert!(AqlFunctionRequest::Add.accepted(200));
    assert!(!AqlFunctionRequest::RemoveAll.accepted(201));
    assert!(!AqlFunctionRequest::Add.accepted(400));
}

#[test]
fn default_database_configuration_values() {
    let config = commons::database::config::default_database_configuration();
    assert_eq!(config.field_expiration, 2592000);
    assert_eq!(config.long_field_expiration, 12);
    assert_eq!(config.collections.configuration.cache_expiration, 900);
}

#[test]
fn lock_index_exactly_on_locked_collections() {
    for kind in CollectionKind::enum_list() {
        let indexes = collection_indexes(*kind, "n");
        let has_lock_index = indexes.iter().any(|i| i.name == "MutexIndex");
        assert_eq!(has_lock_index, kind.holds_document_locks());
        if has_lock_index {
            assert_eq!(indexes[0].name, "MutexIndex");
        }
    }
}

#[test]
fn default_configuration_document() {
    let document = create_default_configuration("config".to_string());
    assert_eq!(document.db_key, Some("config".to_string()));
    assert_eq!(document.db_rev, None);
    assert_eq!(document.database.collections.configuration.cache_expiration, 900);
    assert_eq!(document.api.port, 3003);
    assert_eq!(document.api.filtering.admin.function_count, 20);
}

#[test]
fn configuration_reload() {
    let aql = configuration_lookup_query("config");
    assert_eq!(aql.build_query(), " RETURN DOCUMENT(\"Configuration\",\"config\")");

    let mut cache = ConfigCollectionCache::new(create_default_configuration("old".to_string()));
    assert!(!cache.apply_reload(10, None));
    assert_eq!(cache.document.db_key, Some("old".to_string()));
    assert!(cache.needs_reload(10));
    let mut fresh: ConfigDocument = create_default_configuration("new".to_string());
    fresh.database.collections.configuration.cache_expiration = 2;
    assert!(cache.apply_reload(10, Some(fresh)));
    assert_eq!(cache.document.db_key, Some("new".to_string()));
    assert!(!cache.needs_reload(2_010));
    assert!(cache.needs_reload(2_011));
}

#[test]
fn token_write_overwrites_under_its_key() {
    let write = authentication_token_write();
    assert_eq!(write, DocumentWrite::InsertAndIgnore { overwrite: true });
    assert_eq!(write.options().overwrite, Some(true));
    assert_eq!(write.options().overwrite_mode, Some(OverwriteMode::Replace));
    let conflict = DBRequestError::Arango { error_num: 1210, message: "_key".to_string() };
    let mut retries = write.retries();
    assert_eq!(retries.on_error(conflict.clone()), WriteStep::Fail(conflict));
}

#[test]
fn returned_documents() {
    let insert = DocumentWrite::Insert { overwrite: false };
    assert_eq!(insert.pick_returned(Some(1), Some(2)), Some(1));
    assert_eq!(DocumentWrite::Remove.pick_returned(Some(1), Some(2)), Some(2));
    assert_eq!(DocumentWrite::RemoveAndIgnore.pick_returned(Some(1), Some(2)), None);
    assert_eq!(DocumentWrite::InsertOrUpdateAndIgnore { merge_objects: true }.pick_returned(Some(1), Some(2)), None);
    assert_eq!(DocumentWrite::Update { merge_objects: true, has_rev: true }.pick_returned(Some(1), None), Some(1));
}
