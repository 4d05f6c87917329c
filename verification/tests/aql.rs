use commons::database::aql::{
    get_aql_inline_variable, variable_name, AqlBuilder, AqlCollect, AqlError, AqlInsert, AqlKind,
    AqlLet, AqlLetKind, AqlLimit, AqlRemove, AqlReplace, AqlReturn, AqlSort, AqlUpdate, AqlUpsert,
    OverwriteMode, AQL_MAX_VARIABLES,
};

fn text_of(step: AqlKind) -> String {
    let mut aql = AqlBuilder::new_simple();
    aql.step(step);
    aql.build_query()
}

#[test]
fn return_steps() {
    assert_eq!(text_of(AqlKind::Return(AqlReturn::new_document())), " RETURN i");
    assert_eq!(text_of(AqlKind::Return(AqlReturn::new_updated())), " RETURN NEW");
    assert_eq!(text_of(AqlKind::Return(AqlReturn::new_old())), " RETURN OLD");
    let mut r = AqlReturn::new_expression("x.a".to_string());
    r.distinct = true;
    assert_eq!(text_of(AqlKind::Return(r)), " RETURN DISTINCT x.a");
}

#[test]
fn filter_and_sort_steps() {
    assert_eq!(text_of(AqlKind::Filter("i.a == 1".to_string())), " FILTER i.a == 1");
    assert_eq!(text_of(AqlKind::Sort(vec![])), "");
    let sorts = vec![
        AqlSort { is_descending: false, expression: "i.a".to_string() },
        AqlSort { is_descending: true, expression: "i.b".to_string() },
    ];
    assert_eq!(text_of(AqlKind::Sort(sorts)), " SORT i.a ASC, i.b DESC");
}

#[test]
fn limit_step() {
    assert_eq!(text_of(AqlKind::Limit(AqlLimit { offset: None, count: 10 })), " LIMIT 10");
    assert_eq!(
        text_of(AqlKind::Limit(AqlLimit { offset: Some(20), count: 5 })),
        " LIMIT 20, 5"
    );
    assert_eq!(
        text_of(AqlKind::Limit(AqlLimit { offset: Some(0), count: 18446744073709551615 })),
        " LIMIT 0, 18446744073709551615"
    );
}

#[test]
fn remove_step() {
    let step = AqlRemove::new_document("Bets");
    assert!(!step.ignore_revs);
    assert!(step.ignore_errors);
    assert_eq!(
        text_of(AqlKind::Remove(step.apply_ignore_revs(true).apply_ignore_errors(false))),
        " REMOVE i IN Bets OPTIONS { ignoreRevs: true, ignoreErrors: false }"
    );
}

#[test]
fn update_step() {
    let step = AqlUpdate::new_document("Bets", "{ a: 1 }".to_string());
    assert_eq!(
        text_of(AqlKind::Update(step)),
        " UPDATE i WITH { a: 1 } IN Bets OPTIONS { ignoreRevs: false, keepNull: false, mergeObjects: true, ignoreErrors: false }"
    );
    let step = AqlUpdate::new("x".to_string(), "C", "{}".to_string())
        .apply_ignore_revs(true)
        .apply_keep_null(true)
        .apply_merge_objects(false)
        .apply_ignore_errors(true);
    assert_eq!(
        text_of(AqlKind::Update(step)),
        " UPDATE x WITH {} IN C OPTIONS { ignoreRevs: true, keepNull: true, mergeObjects: false, ignoreErrors: true }"
    );
}

#[test]
fn replace_step() {
    let step = AqlReplace::new_document("C", "NEW_DOC".to_string()).apply_ignore_errors(true);
    assert_eq!(
        text_of(AqlKind::Replace(step)),
        " REPLACE i WITH NEW_DOC IN C OPTIONS { ignoreRevs: false, ignoreErrors: true }"
    );
}

#[test]
fn insert_step() {
    let step = AqlInsert::new_document("C");
    assert_eq!(step.overwrite_mode, OverwriteMode::Replace);
    assert_eq!(
        text_of(AqlKind::Insert(step)),
        " INSERT i INTO C OPTIONS { overwriteMode: \"replace\", keepNull: false, mergeObjects: true, ignoreErrors: false }"
    );
    let mut step = AqlInsert::new("C", "{}".to_string()).apply_keep_null(true);
    step.overwrite_mode = OverwriteMode::Conflict;
    assert_eq!(
        text_of(AqlKind::Insert(step)),
        " INSERT {} INTO C OPTIONS { overwriteMode: \"conflict\", keepNull: true, mergeObjects: true, ignoreErrors: false }"
    );
}

#[test]
fn upsert_step() {
    let step = AqlUpsert::new_update("C", "{ k: 1 }".to_string(), "{ k: 1, v: 2 }".to_string(), "{ v: 2 }".to_string())
        .apply_ignore_errors(true);
    assert_eq!(
        text_of(AqlKind::Upsert(step)),
        " UPSERT { k: 1 } INSERT { k: 1, v: 2 } UPDATE { v: 2 } IN C OPTIONS { keepNull: false, mergeObjects: true, ignoreErrors: true }"
    );
    let step = AqlUpsert::new_replace("C", "L".to_string(), "I".to_string(), "R".to_string())
        .apply_keep_null(true)
        .apply_merge_objects(false);
    assert_eq!(
        text_of(AqlKind::Upsert(step)),
        " UPSERT L INSERT I REPLACE R IN C OPTIONS { keepNull: true, mergeObjects: false, ignoreErrors: false }"
    );
}

#[test]
fn collect_steps() {
    assert_eq!(
        text_of(AqlKind::Collect(AqlCollect::new_count("total".to_string()))),
        " COLLECT WITH COUNT INTO total"
    );
    assert_eq!(
        text_of(AqlKind::Collect(AqlCollect::new_count("total".to_string()).apply_hash_method(true))),
        " COLLECT WITH COUNT INTO total OPTIONS { method: \"hash\" }"
    );
    let keep: &[&str] = &["a", "b", "c"];
    assert_eq!(
        text_of(AqlKind::Collect(AqlCollect::new_collect_and_keep("k = i.k".to_string(), "g".to_string(), keep))),
        " COLLECT k = i.k INTO g KEEP a,b,c"
    );
    let none: &[&str] = &[];
    assert_eq!(
        text_of(AqlKind::Collect(AqlCollect::new_collect_and_keep("k = i.k".to_string(), "g".to_string(), none))),
        " COLLECT k = i.k INTO g"
    );
}

#[test]
fn let_steps() {
    let step = AqlLet {
        variable: "o".to_string(),
        expression: AqlLetKind::Expression("DOCUMENT(C, i)".to_string()),
    };
    assert_eq!(text_of(AqlKind::Let(step)), " LET o = DOCUMENT(C, i)");

    let mut sub = AqlBuilder::new_for_in_collection("j", "Bets");
    sub.return_step(AqlReturn::new_expression("j._key".to_string()));
    let step = AqlLet { variable: "keys".to_string(), expression: AqlLetKind::Aql(sub) };
    assert_eq!(text_of(AqlKind::Let(step)), " LET keys = (FOR j IN Bets RETURN j._key)");
}

#[test]
fn builder_heads() {
    let aql = AqlBuilder::new_simple();
    assert_eq!(aql.build_query(), "");
    let aql = AqlBuilder::new_for_in_collection("i", "Challenges");
    assert_eq!(aql.build_query(), "FOR i IN Challenges");
    let list = vec![serde_json::Value::from(1), serde_json::Value::from("a"), serde_json::Value::Null];
    let mut aql = AqlBuilder::new_for_in_list("i", list);
    assert_eq!(aql.build_query(), "FOR i IN [1,\"a\",null]");
    aql.set_list(vec![serde_json::Value::from(true)]);
    assert_eq!(aql.build_query(), "FOR i IN [true]");
}

#[test]
fn builder_whole_query() {
    let mut aql = AqlBuilder::new_for_in_collection("i", "Bets");
    aql.filter_step("i.a > 1".to_string());
    aql.sort_step(vec![AqlSort { is_descending: true, expression: "i.a".to_string() }]);
    aql.limit_step(AqlLimit { offset: None, count: 3 });
    aql.return_step(AqlReturn::new_document());
    assert_eq!(aql.build_query(), "FOR i IN Bets FILTER i.a > 1 SORT i.a DESC LIMIT 3 RETURN i");
}

#[test]
fn builder_settings() {
    let mut aql = AqlBuilder::new_simple();
    assert_eq!(aql.batch_size(), None);
    assert!(!aql.full_count());
    assert!(!aql.handle_write_conflicts());
    assert_eq!(aql.global_limit(), 0);
    aql.set_batch_size(Some(5));
    aql.set_full_count(true);
    aql.set_handle_write_conflicts(true);
    aql.set_global_limit(7);
    assert_eq!(aql.batch_size(), Some(5));
    assert!(aql.full_count());
    assert!(aql.handle_write_conflicts());
    assert_eq!(aql.global_limit(), 7);
}

#[test]
fn builder_variables() {
    let mut aql = AqlBuilder::new_simple();
    for i in 0..AQL_MAX_VARIABLES {
        let id = aql.add_variable_as_json(serde_json::Value::from(i)).unwrap();
        assert_eq!(id, format!("@v{}", i));
        assert_eq!(variable_name(i), format!("v{}", i));
    }
    assert_eq!(aql.variable_values().len(), 100);
    assert_eq!(
        aql.add_variable_as_json(serde_json::Value::from(0)),
        Err(AqlError::TooManyVariables)
    );
    assert_eq!(aql.variable_values().len(), 100);
    assert_eq!(AqlError::TooManyVariables.status_code(), 400);
    assert_eq!(AqlError::TooManyVariables.message(), "Too much variables to perform the query");
}

#[test]
fn inline_variables() {
    assert_eq!(get_aql_inline_variable(0), "_0");
    assert_eq!(get_aql_inline_variable(7), "_7");
    assert_eq!(get_aql_inline_variable(99), "_99");
}

#[test]
fn list_queries() {
    let mut aql = AqlBuilder::new_for_in_list("x", vec![serde_json::Value::from(1)]);
    assert!(aql.is_list_query());
    aql.set_list(vec![serde_json::Value::from(2), serde_json::Value::from(3)]);
    assert_eq!(aql.build_query(), "FOR x IN [2,3]");
    assert!(!AqlBuilder::new_simple().is_list_query());
    assert!(!AqlBuilder::new_for_in_collection("i", "Bets").is_list_query());
}
