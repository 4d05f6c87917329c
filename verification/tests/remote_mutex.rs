use commons::data::remote_mutex::{
    document_exists_query, keep_alive_query, release_all_query, release_query,
    try_acquire_aql_query, try_acquire_list_query, KeepAliveAction, MutexFieldPaths,
    ReleaseAction, RemoteMutexState, AcquireAttempt, AcquireEvent, AcquireStep,
    REMOTE_MUTEX_ACQUIRE_MAX_INTERVAL, REMOTE_MUTEX_ACQUIRE_MIN_INTERVAL,
};
use commons::database::aql::{AqlLimit, AqlSort};

const PATHS: MutexFieldPaths = MutexFieldPaths { node: "n", expiration: "e", change_flag: "c" };

fn ids() -> Vec<String> {
    vec!["k1".to_string(), "k2".to_string()]
}

#[test]
fn acquire_list_query() {
    let aql = try_acquire_list_query("Bets", &ids(), PATHS, "node1", "100", "220", "\"f1\"");
    assert_eq!(
        aql.build_query(),
        "FOR i IN [\"k1\",\"k2\"] LET o = DOCUMENT(Bets, i) FILTER o != null && o._l.e <= 100 \
UPDATE i WITH { _l: { n: \"node1\", e: 220, c: \"f1\" } } IN Bets OPTIONS { ignoreRevs: false, keepNull: false, mergeObjects: true, ignoreErrors: true } \
FILTER NEW != null RETURN NEW"
    );
}

#[test]
fn acquire_aql_query() {
    let aql = try_acquire_aql_query(
        "Bets",
        Some("i.x == 1"),
        Some(vec![AqlSort { is_descending: false, expression: "i.x".to_string() }]),
        Some(AqlLimit { offset: None, count: 2 }),
        PATHS,
        "node1",
        "100",
        "220",
        "\"f1\"",
    );
    assert_eq!(
        aql.build_query(),
        "FOR i IN Bets FILTER i.x == 1 FILTER i._l.e <= 100 SORT i.x ASC LIMIT 2 \
UPDATE i WITH { _l: { n: \"node1\", e: 220, c: \"f1\" } } IN Bets OPTIONS { ignoreRevs: false, keepNull: false, mergeObjects: true, ignoreErrors: true } \
FILTER NEW != null RETURN NEW"
    );
    let aql = try_acquire_aql_query("Bets", None, None, None, PATHS, "node1", "1", "2", "3");
    assert_eq!(
        aql.build_query(),
        "FOR i IN Bets FILTER i._l.e <= 1 \
UPDATE i WITH { _l: { n: \"node1\", e: 2, c: 3 } } IN Bets OPTIONS { ignoreRevs: false, keepNull: false, mergeObjects: true, ignoreErrors: true } \
FILTER NEW != null RETURN NEW"
    );
}

#[test]
fn alive_and_release_queries() {
    let aql = keep_alive_query("Bets", &ids(), PATHS, "node\"1", "\"f1\"", "100", "220");
    assert_eq!(
        aql.build_query(),
        "FOR i IN [\"k1\",\"k2\"] LET o = DOCUMENT(Bets, i) \
FILTER o != null && o._l.n == \"node\\\"1\" && o._l.c == \"f1\" && o._l.e > 100 \
UPDATE i WITH { _l: { e: 220 } } IN Bets OPTIONS { ignoreRevs: false, keepNull: false, mergeObjects: true, ignoreErrors: true } \
FILTER NEW != null RETURN i"
    );
    let aql = release_query("Bets", &ids(), PATHS, "node1", "\"f1\"");
    assert_eq!(
        aql.build_query(),
        "FOR i IN [\"k1\",\"k2\"] LET o = DOCUMENT(Bets, i) \
FILTER o != null && o._l.n == \"node1\" && o._l.c == \"f1\" \
UPDATE i WITH { _l: null } IN Bets OPTIONS { ignoreRevs: false, keepNull: false, mergeObjects: true, ignoreErrors: true } \
FILTER NEW != null RETURN i"
    );
    let aql = release_all_query("Bets", PATHS, "node1");
    assert_eq!(
        aql.build_query(),
        "FOR i IN Bets FILTER i._l.n == \"node1\" \
UPDATE i WITH { _l: null } IN Bets OPTIONS { ignoreRevs: false, keepNull: false, mergeObjects: true, ignoreErrors: true }"
    );
    let aql = document_exists_query("Mutexes", "\"k1\"");
    assert_eq!(
        aql.build_query(),
        " LET i = DOCUMENT(\"Mutexes\",\"k1\") FILTER i != null RETURN true"
    );
}

fn keys(v: &[&str]) -> Vec<String> {
    v.iter().map(|s| s.to_string()).collect()
}

#[test]
fn lock_state() {
    let mut state = RemoteMutexState::new(keys(&["a", "b", "a", "c"]), "flag".to_string());
    assert_eq!(state.elements(), &keys(&["a", "b", "c"]));
    assert_eq!(state.change_flag(), "flag");
    assert!(state.alive());
    assert!(!state.is_empty());
    assert!(state.is_id_locked(&"b".to_string()));
    assert!(!state.is_id_locked(&"z".to_string()));
    state.remove_id(&"b".to_string());
    assert!(!state.is_id_locked(&"b".to_string()));
    assert!(state.pop("z".to_string()).is_none());
    let moved = state.pop("a".to_string()).unwrap();
    assert_eq!(moved.elements(), &keys(&["a"]));
    assert_eq!(moved.change_flag(), "flag");
    assert!(moved.alive());
    assert_eq!(state.elements(), &keys(&["c"]));
}

#[test]
fn lock_keep_alive() {
    let mut state = RemoteMutexState::new(keys(&["a", "b"]), "f".to_string());
    assert_eq!(state.keep_alive_action(), KeepAliveAction::Extend);
    assert!(state.apply_keep_alive_result(Some(keys(&["b"]))));
    assert_eq!(state.elements(), &keys(&["b"]));
    assert!(!state.apply_keep_alive_result(Some(vec![])));
    assert!(!state.alive());
    assert_eq!(state.keep_alive_action(), KeepAliveAction::Stop);

    let mut state = RemoteMutexState::new(keys(&["a"]), "f".to_string());
    assert!(!state.apply_keep_alive_result(None));
    assert_eq!(state.begin_release(), ReleaseAction::AlreadyReleased);

    let empty = RemoteMutexState::new(vec![], "f".to_string());
    assert_eq!(empty.keep_alive_action(), KeepAliveAction::Wait);
}

#[test]
fn lock_release() {
    let mut state = RemoteMutexState::new(keys(&["a", "b", "c"]), "f".to_string());
    assert_eq!(state.begin_release(), ReleaseAction::Release);
    assert_eq!(state.begin_release(), ReleaseAction::AlreadyReleased);
    assert_eq!(state.unreleased(&keys(&["b", "x"])), keys(&["a", "c"]));
    assert_eq!(state.unreleased(&keys(&["a", "b", "c"])), Vec::<String>::new());
    let mut empty = RemoteMutexState::new(vec![], "f".to_string());
    assert_eq!(empty.begin_release(), ReleaseAction::NothingLocked);
}

fn is_retry(step: AcquireStep) -> bool {
    match step {
        AcquireStep::Retry { wait_ms } => {
            assert!(REMOTE_MUTEX_ACQUIRE_MIN_INTERVAL <= wait_ms);
            assert!(wait_ms < REMOTE_MUTEX_ACQUIRE_MAX_INTERVAL);
            true
        }
        _ => false,
    }
}

#[test]
fn acquire_with_timeout_steps() {
    let mut attempt = AcquireAttempt::new();
    assert_eq!(attempt.next(AcquireEvent::Busy), AcquireStep::CheckDocument);
    assert!(is_retry(attempt.next(AcquireEvent::DocumentChecked { exists: true })));
    for _ in 0..20 {
        assert!(is_retry(attempt.next(AcquireEvent::Busy)));
    }
    assert_eq!(attempt.next(AcquireEvent::Acquired), AcquireStep::Done);
    assert_eq!(attempt.next(AcquireEvent::TimedOut), AcquireStep::GiveUp);

    let mut missing = AcquireAttempt::new();
    assert_eq!(missing.next(AcquireEvent::Busy), AcquireStep::CheckDocument);
    assert_eq!(missing.next(AcquireEvent::DocumentChecked { exists: false }), AcquireStep::GiveUp);
}

#[test]
fn lock_keys_are_escaped() {
    let keys = vec!["a\"b".to_string(), "c\\d\n\u{1}".to_string()];
    let aql = release_query("Bets", &keys, PATHS, "node1", "\"f1\"");
    assert!(aql.build_query().starts_with("FOR i IN [\"a\\\"b\",\"c\\\\d\\n\\u0001\"] LET o"));
}
