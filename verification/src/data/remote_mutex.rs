//! Locks on documents shared by several nodes: the queries that take, keep
//! alive and release them, and the bookkeeping of the documents a node holds.

use vstd::prelude::*;
use vstd::string::StringExecFns;
use rand::Rng;
use crate::text::{concat, concat_all, views};
use crate::database::aql::{
    AqlBuilder, AqlKind, AqlLimit, AqlSort, AqlLet, AqlLetKind, AqlReturn, AqlUpdate, AQL_DOCUMENT_ID, AQL_NEW_ID,
};
use crate::database::mapping::AQLMapping;
use crate::database::aql::AQL_MAX_VARIABLES;
use crate::database::aql::json::{json_string, json_string_array, json_string_array_text, json_string_text};
use crate::database::documents::{document_field_path, DBDocumentField};

verus! {

/// The names, inside the lock field of a document, of the node that holds the
/// lock, of the time the lock expires and of the flag that tells one taking
/// of the lock from another.
#[derive(Clone, Copy)]
pub struct MutexFieldPaths<'a> {
    pub node: &'a str,
    pub expiration: &'a str,
    pub change_flag: &'a str,
}

/// The name a query gives the document it looks up.
pub const MUTEX_DOCUMENT_ALIAS: &'static str = "o";

/// `DOCUMENT(<collection>, i)`.
pub open spec fn document_lookup_text(collection: Seq<char>) -> Seq<char> {
    concat_all(seq!["DOCUMENT("@, collection, ", "@, AQL_DOCUMENT_ID@, ")"@])
}

/// `o != null && o._l.<expiration> <= <now>`: the document exists and its lock expired.
pub open spec fn lock_expired_filter_text(paths: MutexFieldPaths, now: Seq<char>) -> Seq<char> {
    concat_all(seq![
        MUTEX_DOCUMENT_ALIAS@, " != null && "@, MUTEX_DOCUMENT_ALIAS@, "."@,
        document_field_path(DBDocumentField::Mutex), "."@, paths.expiration@, " <= "@, now,
    ])
}

/// `{ _l: { <node>: <node id>, <expiration>: <expiration>, <change flag>: <flag> } }`.
pub open spec fn lock_value_text(
    paths: MutexFieldPaths,
    node_id: Seq<char>,
    expiration: Seq<char>,
    change_flag: Seq<char>,
) -> Seq<char> {
    concat_all(seq![
        "{ "@, document_field_path(DBDocumentField::Mutex), ": { "@,
        paths.node@, ": "@, json_string_text(node_id), ", "@,
        paths.expiration@, ": "@, expiration, ", "@,
        paths.change_flag@, ": "@, change_flag, " } }"@,
    ])
}

/// `NEW != null`.
pub open spec fn written_filter_text() -> Seq<char> {
    concat_all(seq![AQL_NEW_ID@, " != null"@])
}

/// The text of an update of the current document (`i`) in `collection` with
/// `expression` that merges objects and ignores errors.
pub open spec fn lock_update_text(collection: Seq<char>, expression: Seq<char>) -> Seq<char> {
    " UPDATE "@ + AQL_DOCUMENT_ID@ + " WITH "@ + expression + " IN "@ + collection
        + (" OPTIONS { ignoreRevs: "@ + seq!['f', 'a', 'l', 's', 'e']
        + ", keepNull: "@ + seq!['f', 'a', 'l', 's', 'e']
        + ", mergeObjects: "@ + seq!['t', 'r', 'u', 'e']
        + ", ignoreErrors: "@ + seq!['t', 'r', 'u', 'e'] + " }"@)
}

/// The query, without its `RETURN`, that locks, among the documents of
/// `collection` with the keys `ids`, those whose lock expired:
///
/// ```text
/// FOR i IN <ids>
///     LET o = DOCUMENT(<collection>, i)
///     FILTER o != null && o._l.<expiration> <= <now>
///     UPDATE i WITH { _l: { .. } } IN <collection> OPTIONS { .., ignoreErrors: true }
///     FILTER NEW != null
/// ```
pub open spec fn try_acquire_list_body_text(
    collection: Seq<char>,
    ids: Seq<Seq<char>>,
    paths: MutexFieldPaths,
    node_id: Seq<char>,
    now: Seq<char>,
    expiration: Seq<char>,
    change_flag: Seq<char>,
) -> Seq<char> {
    "FOR "@ + AQL_DOCUMENT_ID@ + " IN "@ + json_string_array_text(ids)
        + (" LET "@ + MUTEX_DOCUMENT_ALIAS@ + " = "@ + document_lookup_text(collection))
        + (" FILTER "@ + lock_expired_filter_text(paths, now))
        + lock_update_text(collection, lock_value_text(paths, node_id, expiration, change_flag))
        + (" FILTER "@ + written_filter_text())
}

/// The whole query of `try_acquire_list_body_text`, returning `NEW`.
pub open spec fn try_acquire_list_text(
    collection: Seq<char>,
    ids: Seq<Seq<char>>,
    paths: MutexFieldPaths,
    node_id: Seq<char>,
    now: Seq<char>,
    expiration: Seq<char>,
    change_flag: Seq<char>,
) -> Seq<char> {
    try_acquire_list_body_text(collection, ids, paths, node_id, now, expiration, change_flag)
        + (" RETURN "@ + Seq::<char>::empty() + AQL_NEW_ID@)
}


/// `i._l.<expiration> <= <now>`: the lock of the current document expired.
pub open spec fn own_lock_expired_filter_text(paths: MutexFieldPaths, now: Seq<char>) -> Seq<char> {
    concat_all(seq![
        AQL_DOCUMENT_ID@, "."@, document_field_path(DBDocumentField::Mutex), "."@,
        paths.expiration@, " <= "@, now,
    ])
}

/// The query, without its `RETURN`, that locks the documents of `collection`
/// that pass `filter` and whose lock expired, sorted by `sort` and limited by
/// `limits`:
///
/// ```text
/// FOR i IN <collection>
///     [FILTER <filter>]
///     FILTER i._l.<expiration> <= <now>
///     [SORT ..] [LIMIT ..]
///     UPDATE i WITH { _l: { .. } } IN <collection> OPTIONS { .., ignoreErrors: true }
///     FILTER NEW != null
/// ```
pub open spec fn try_acquire_aql_body_text(
    collection: Seq<char>,
    filter: Option<Seq<char>>,
    sort: Option<Vec<AqlSort>>,
    limits: Option<AqlLimit>,
    paths: MutexFieldPaths,
    node_id: Seq<char>,
    now: Seq<char>,
    expiration: Seq<char>,
    change_flag: Seq<char>,
) -> Seq<char> {
    "FOR "@ + AQL_DOCUMENT_ID@ + " IN "@ + collection
        + (match filter { Some(f) => " FILTER "@ + f, None => Seq::empty() })
        + (" FILTER "@ + own_lock_expired_filter_text(paths, now))
        + (match sort { Some(v) => AqlKind::Sort(v).query_text(), None => Seq::empty() })
        + (match limits { Some(l) => l.query_text(), None => Seq::empty() })
        + lock_update_text(collection, lock_value_text(paths, node_id, expiration, change_flag))
        + (" FILTER "@ + written_filter_text())
}

/// The number of steps of `try_acquire_aql_body_text`.
pub open spec fn try_acquire_aql_body_steps(filter: bool, sort: bool, limits: bool) -> int {
    3 + (if filter { 1int } else { 0 }) + (if sort { 1int } else { 0 }) + (if limits { 1int } else { 0 })
}

/// The whole query of `try_acquire_aql_body_text`, returning `NEW`.
pub open spec fn try_acquire_aql_text(
    collection: Seq<char>,
    filter: Option<Seq<char>>,
    sort: Option<Vec<AqlSort>>,
    limits: Option<AqlLimit>,
    paths: MutexFieldPaths,
    node_id: Seq<char>,
    now: Seq<char>,
    expiration: Seq<char>,
    change_flag: Seq<char>,
) -> Seq<char> {
    try_acquire_aql_body_text(collection, filter, sort, limits, paths, node_id, now, expiration, change_flag)
        + (" RETURN "@ + Seq::<char>::empty() + AQL_NEW_ID@)
}

/// `o != null && o._l.<node> == <node id> && o._l.<change flag> == <flag>`:
/// the document exists and this taking of the lock still holds it.
pub open spec fn lock_held_filter_text(
    paths: MutexFieldPaths,
    node_id: Seq<char>,
    change_flag: Seq<char>,
) -> Seq<char> {
    concat_all(seq![
        MUTEX_DOCUMENT_ALIAS@, " != null && "@,
        MUTEX_DOCUMENT_ALIAS@, "."@, document_field_path(DBDocumentField::Mutex), "."@,
        paths.node@, " == "@, json_string_text(node_id), " && "@,
        MUTEX_DOCUMENT_ALIAS@, "."@, document_field_path(DBDocumentField::Mutex), "."@,
        paths.change_flag@, " == "@, change_flag,
    ])
}

/// `... && o._l.<expiration> > <now>`: besides, the lock has not expired.
pub open spec fn lock_alive_filter_text(
    paths: MutexFieldPaths,
    node_id: Seq<char>,
    change_flag: Seq<char>,
    now: Seq<char>,
) -> Seq<char> {
    lock_held_filter_text(paths, node_id, change_flag) + concat_all(seq![
        " && "@, MUTEX_DOCUMENT_ALIAS@, "."@, document_field_path(DBDocumentField::Mutex), "."@,
        paths.expiration@, " > "@, now,
    ])
}

/// `{ _l: { <expiration>: <expiration> } }`.
pub open spec fn lock_extension_text(paths: MutexFieldPaths, expiration: Seq<char>) -> Seq<char> {
    concat_all(seq![
        "{ "@, document_field_path(DBDocumentField::Mutex), ": { "@,
        paths.expiration@, ": "@, expiration, " } }"@,
    ])
}

/// `{ _l: null }`.
pub open spec fn lock_removal_text() -> Seq<char> {
    concat_all(seq!["{ "@, document_field_path(DBDocumentField::Mutex), ": null }"@])
}

/// The query that extends the locks this node still holds on the documents
/// `ids` of `collection`, and returns the keys of those it extended:
///
/// ```text
/// FOR i IN <ids>
///     LET o = DOCUMENT(<collection>, i)
///     FILTER o != null && o._l.<node> == <node> && o._l.<change flag> == <flag> && o._l.<expiration> > <now>
///     UPDATE i WITH { _l: { <expiration>: <expiration> } } IN <collection> OPTIONS { .., ignoreErrors: true }
///     FILTER NEW != null
///     RETURN i
/// ```
pub open spec fn keep_alive_text(
    collection: Seq<char>,
    ids: Seq<Seq<char>>,
    paths: MutexFieldPaths,
    node_id: Seq<char>,
    change_flag: Seq<char>,
    now: Seq<char>,
    expiration: Seq<char>,
) -> Seq<char> {
    "FOR "@ + AQL_DOCUMENT_ID@ + " IN "@ + json_string_array_text(ids)
        + (" LET "@ + MUTEX_DOCUMENT_ALIAS@ + " = "@ + document_lookup_text(collection))
        + (" FILTER "@ + lock_alive_filter_text(paths, node_id, change_flag, now))
        + lock_update_text(collection, lock_extension_text(paths, expiration))
        + (" FILTER "@ + written_filter_text())
        + (" RETURN "@ + Seq::<char>::empty() + AQL_DOCUMENT_ID@)
}

/// The query that releases the locks this node holds on the documents `ids`
/// of `collection`, and returns the keys of those it released:
///
/// ```text
/// FOR i IN <ids>
///     LET o = DOCUMENT(<collection>, i)
///     FILTER o != null && o._l.<node> == <node> && o._l.<change flag> == <flag>
///     UPDATE i WITH { _l: null } IN <collection> OPTIONS { .., ignoreErrors: true }
///     FILTER NEW != null
///     RETURN i
/// ```
pub open spec fn release_text(
    collection: Seq<char>,
    ids: Seq<Seq<char>>,
    paths: MutexFieldPaths,
    node_id: Seq<char>,
    change_flag: Seq<char>,
) -> Seq<char> {
    "FOR "@ + AQL_DOCUMENT_ID@ + " IN "@ + json_string_array_text(ids)
        + (" LET "@ + MUTEX_DOCUMENT_ALIAS@ + " = "@ + document_lookup_text(collection))
        + (" FILTER "@ + lock_held_filter_text(paths, node_id, change_flag))
        + lock_update_text(collection, lock_removal_text())
        + (" FILTER "@ + written_filter_text())
        + (" RETURN "@ + Seq::<char>::empty() + AQL_DOCUMENT_ID@)
}

/// `i._l.<node> == <node id>`: this node holds the lock of the current document.
pub open spec fn own_node_filter_text(paths: MutexFieldPaths, node_id: Seq<char>) -> Seq<char> {
    concat_all(seq![
        AQL_DOCUMENT_ID@, "."@, document_field_path(DBDocumentField::Mutex), "."@,
        paths.node@, " == "@, json_string_text(node_id),
    ])
}

/// The query that releases every lock this node holds in `collection`:
///
/// ```text
/// FOR i IN <collection>
///     FILTER i._l.<node> == <node>
///     UPDATE i WITH { _l: null } IN <collection> OPTIONS { .., ignoreErrors: true }
/// ```
pub open spec fn release_all_text(
    collection: Seq<char>,
    paths: MutexFieldPaths,
    node_id: Seq<char>,
) -> Seq<char> {
    "FOR "@ + AQL_DOCUMENT_ID@ + " IN "@ + collection
        + (" FILTER "@ + own_node_filter_text(paths, node_id))
        + lock_update_text(collection, lock_removal_text())
}

/// The query that tells whether the document with the key `key` (a JSON
/// text) exists in `collection`:
///
/// ```text
/// LET i = DOCUMENT("<collection>",<key>)
/// FILTER i != null
/// RETURN true
/// ```
pub open spec fn document_exists_text(collection: Seq<char>, key: Seq<char>) -> Seq<char> {
    (" LET "@ + AQL_DOCUMENT_ID@ + " = "@ + concat_all(seq!["DOCUMENT(\""@, collection, "\","@, key, ")"@]))
        + (" FILTER "@ + concat_all(seq![AQL_DOCUMENT_ID@, " != null"@]))
        + (" RETURN "@ + Seq::<char>::empty() + "true"@)
}

fn document_lookup(collection: &str) -> (r: String)
    ensures
        r@ == document_lookup_text(collection@),
{
    let r = concat(&["DOCUMENT(", collection, ", ", AQL_DOCUMENT_ID, ")"]);
    proof {
        assert(views(seq!["DOCUMENT(", collection, ", ", AQL_DOCUMENT_ID, ")"]) =~= seq!["DOCUMENT("@, collection@, ", "@, AQL_DOCUMENT_ID@, ")"@]);
    }
    r
}

fn lock_expired_filter(paths: MutexFieldPaths, now: &str) -> (r: String)
    ensures
        r@ == lock_expired_filter_text(paths, now@),
{
    let mutex = DBDocumentField::Mutex.path();
    let r = concat(&[
        MUTEX_DOCUMENT_ALIAS, " != null && ", MUTEX_DOCUMENT_ALIAS, ".", mutex, ".",
        paths.expiration, " <= ", now,
    ]);
    proof {
        assert(views(seq![
            MUTEX_DOCUMENT_ALIAS, " != null && ", MUTEX_DOCUMENT_ALIAS, ".", mutex, ".",
            paths.expiration, " <= ", now,
        ]) =~= seq![
            MUTEX_DOCUMENT_ALIAS@, " != null && "@, MUTEX_DOCUMENT_ALIAS@, "."@,
            document_field_path(DBDocumentField::Mutex), "."@, paths.expiration@, " <= "@, now@,
        ]);
    }
    r
}

fn lock_value(paths: MutexFieldPaths, node_id: &str, expiration: &str, change_flag: &str) -> (r: String)
    ensures
        r@ == lock_value_text(paths, node_id@, expiration@, change_flag@),
{
    let mutex = DBDocumentField::Mutex.path();
    let node_json = json_string(node_id);
    let node = node_json.as_str();
    let r = concat(&[
        "{ ", mutex, ": { ",
        paths.node, ": ", node, ", ",
        paths.expiration, ": ", expiration, ", ",
        paths.change_flag, ": ", change_flag, " } }",
    ]);
    proof {
        assert(views(seq![
            "{ ", mutex, ": { ",
            paths.node, ": ", node, ", ",
            paths.expiration, ": ", expiration, ", ",
            paths.change_flag, ": ", change_flag, " } }",
        ]) =~= seq![
            "{ "@, document_field_path(DBDocumentField::Mutex), ": { "@,
            paths.node@, ": "@, json_string_text(node_id@), ", "@,
            paths.expiration@, ": "@, expiration@, ", "@,
            paths.change_flag@, ": "@, change_flag@, " } }"@,
        ]);
    }
    r
}

fn written_filter() -> (r: String)
    ensures
        r@ == written_filter_text(),
{
    let r = concat(&[AQL_NEW_ID, " != null"]);
    proof {
        assert(views(seq![AQL_NEW_ID, " != null"]) =~= seq![AQL_NEW_ID@, " != null"@]);
    }
    r
}

fn try_acquire_list_body<'a>(
    collection: &'a str,
    ids: &Vec<String>,
    paths: MutexFieldPaths,
    node_id: &str,
    now: &str,
    expiration: &str,
    change_flag: &str,
) -> (aql: AqlBuilder<'a>)
    ensures
        aql.query_text() == try_acquire_list_body_text(collection@, key_views(ids@), paths, node_id@, now@, expiration@, change_flag@),
        aql.steps().len() == 4,
        aql.variable_count() == 0,
        aql.buildable(),
{
    proof {
        reveal_strlit("false");
        reveal_strlit("true");
    }
    let list = json_string_array(ids);
    proof {
        assert(ids@.map_values(|k: String| k@) =~= key_views(ids@));
    }
    let mut aql = AqlBuilder::new_for_in_text(AQL_DOCUMENT_ID, list);
    aql.let_step(AqlLet {
        variable: String::from_str(MUTEX_DOCUMENT_ALIAS),
        expression: AqlLetKind::Expression(document_lookup(collection)),
    });
    aql.filter_step(lock_expired_filter(paths, now));
    aql.update_step(
        AqlUpdate::new_document(collection, lock_value(paths, node_id, expiration, change_flag))
            .apply_ignore_errors(true),
    );
    aql.filter_step(written_filter());
    aql
}

/// Builds the query that takes the locks of the documents `ids` of `collection`
/// for the node `node_id` and returns them; `now`, `expiration` and
/// `change_flag` are JSON texts.
pub fn try_acquire_list_query<'a>(
    collection: &'a str,
    ids: &Vec<String>,
    paths: MutexFieldPaths,
    node_id: &str,
    now: &str,
    expiration: &str,
    change_flag: &str,
) -> (aql: AqlBuilder<'a>)
    ensures
        aql.query_text() == try_acquire_list_text(collection@, key_views(ids@), paths, node_id@, now@, expiration@, change_flag@),
        aql.variable_count() == 0,
        aql.buildable(),
{
    let mut aql = try_acquire_list_body(collection, ids, paths, node_id, now, expiration, change_flag);
    aql.return_step(AqlReturn::new_updated());
    proof {
        reveal_strlit("DISTINCT ");
    }
    aql
}

/// Builds the query that takes the locks of the documents `ids` of `collection`
/// for the node `node_id` and returns the mapping of `return_fields` for
/// each; `now`, `expiration` and `change_flag` are JSON texts.
pub fn try_acquire_list_query_with_fields<'a, T: AQLMapping>(
    collection: &'a str,
    ids: &Vec<String>,
    paths: MutexFieldPaths,
    node_id: &str,
    now: &str,
    expiration: &str,
    change_flag: &str,
    return_fields: &T,
) -> (aql: AqlBuilder<'a>)
    requires
        return_fields.mapping_next_id(AQL_NEW_ID@, 0) <= AQL_MAX_VARIABLES,
    ensures
        aql.query_text() == try_acquire_list_body_text(collection@, key_views(ids@), paths, node_id@, now@, expiration@, change_flag@)
            + return_fields.lets_text(AQL_NEW_ID@, 0) + " RETURN "@ + return_fields.mapping_text(AQL_NEW_ID@, 0),
        aql.steps().len() >= 5,
        forall|i: int| 4 <= i < aql.steps().len() - 1 ==> #[trigger] aql.steps()[i] is Let,
        aql.steps().last() matches AqlKind::Return(r) && !r.distinct
            && r.expression@ == return_fields.mapping_text(AQL_NEW_ID@, 0),
        aql.variable_count() == 0,
        aql.buildable(),
{
    let mut aql = try_acquire_list_body(collection, ids, paths, node_id, now, expiration, change_flag);
    aql.return_step_with_fields(AQL_NEW_ID, return_fields);
    aql
}


fn own_lock_expired_filter(paths: MutexFieldPaths, now: &str) -> (r: String)
    ensures
        r@ == own_lock_expired_filter_text(paths, now@),
{
    let mutex = DBDocumentField::Mutex.path();
    let r = concat(&[AQL_DOCUMENT_ID, ".", mutex, ".", paths.expiration, " <= ", now]);
    proof {
        assert(views(seq![AQL_DOCUMENT_ID, ".", mutex, ".", paths.expiration, " <= ", now])
            =~= seq![AQL_DOCUMENT_ID@, "."@, document_field_path(DBDocumentField::Mutex), "."@,
                paths.expiration@, " <= "@, now@]);
    }
    r
}

fn lock_held_filter(paths: MutexFieldPaths, node_id: &str, change_flag: &str) -> (r: String)
    ensures
        r@ == lock_held_filter_text(paths, node_id@, change_flag@),
{
    let mutex = DBDocumentField::Mutex.path();
    let node_json = json_string(node_id);
    let node = node_json.as_str();
    let r = concat(&[
        MUTEX_DOCUMENT_ALIAS, " != null && ",
        MUTEX_DOCUMENT_ALIAS, ".", mutex, ".", paths.node, " == ", node, " && ",
        MUTEX_DOCUMENT_ALIAS, ".", mutex, ".", paths.change_flag, " == ", change_flag,
    ]);
    proof {
        assert(views(seq![
            MUTEX_DOCUMENT_ALIAS, " != null && ",
            MUTEX_DOCUMENT_ALIAS, ".", mutex, ".", paths.node, " == ", node, " && ",
            MUTEX_DOCUMENT_ALIAS, ".", mutex, ".", paths.change_flag, " == ", change_flag,
        ]) =~= seq![
            MUTEX_DOCUMENT_ALIAS@, " != null && "@,
            MUTEX_DOCUMENT_ALIAS@, "."@, document_field_path(DBDocumentField::Mutex), "."@,
            paths.node@, " == "@, json_string_text(node_id@), " && "@,
            MUTEX_DOCUMENT_ALIAS@, "."@, document_field_path(DBDocumentField::Mutex), "."@,
            paths.change_flag@, " == "@, change_flag@,
        ]);
    }
    r
}

fn lock_alive_filter(paths: MutexFieldPaths, node_id: &str, change_flag: &str, now: &str) -> (r: String)
    ensures
        r@ == lock_alive_filter_text(paths, node_id@, change_flag@, now@),
{
    let mutex = DBDocumentField::Mutex.path();
    let mut r = lock_held_filter(paths, node_id, change_flag);
    let rest = concat(&[" && ", MUTEX_DOCUMENT_ALIAS, ".", mutex, ".", paths.expiration, " > ", now]);
    proof {
        assert(views(seq![" && ", MUTEX_DOCUMENT_ALIAS, ".", mutex, ".", paths.expiration, " > ", now])
            =~= seq![" && "@, MUTEX_DOCUMENT_ALIAS@, "."@, document_field_path(DBDocumentField::Mutex), "."@,
                paths.expiration@, " > "@, now@]);
    }
    r.append(rest.as_str());
    r
}

fn lock_extension(paths: MutexFieldPaths, expiration: &str) -> (r: String)
    ensures
        r@ == lock_extension_text(paths, expiration@),
{
    let mutex = DBDocumentField::Mutex.path();
    let r = concat(&["{ ", mutex, ": { ", paths.expiration, ": ", expiration, " } }"]);
    proof {
        assert(views(seq!["{ ", mutex, ": { ", paths.expiration, ": ", expiration, " } }"])
            =~= seq!["{ "@, document_field_path(DBDocumentField::Mutex), ": { "@,
                paths.expiration@, ": "@, expiration@, " } }"@]);
    }
    r
}

fn lock_removal() -> (r: String)
    ensures
        r@ == lock_removal_text(),
{
    let mutex = DBDocumentField::Mutex.path();
    let r = concat(&["{ ", mutex, ": null }"]);
    proof {
        assert(views(seq!["{ ", mutex, ": null }"])
            =~= seq!["{ "@, document_field_path(DBDocumentField::Mutex), ": null }"@]);
    }
    r
}

fn own_node_filter(paths: MutexFieldPaths, node_id: &str) -> (r: String)
    ensures
        r@ == own_node_filter_text(paths, node_id@),
{
    let mutex = DBDocumentField::Mutex.path();
    let node_json = json_string(node_id);
    let node = node_json.as_str();
    let r = concat(&[AQL_DOCUMENT_ID, ".", mutex, ".", paths.node, " == ", node]);
    proof {
        assert(views(seq![AQL_DOCUMENT_ID, ".", mutex, ".", paths.node, " == ", node])
            =~= seq![AQL_DOCUMENT_ID@, "."@, document_field_path(DBDocumentField::Mutex), "."@,
                paths.node@, " == "@, json_string_text(node_id@)]);
    }
    r
}

fn try_acquire_aql_body<'a>(
    collection: &'a str,
    filter: Option<&str>,
    sort: Option<Vec<AqlSort>>,
    limits: Option<AqlLimit>,
    paths: MutexFieldPaths,
    node_id: &str,
    now: &str,
    expiration: &str,
    change_flag: &str,
) -> (aql: AqlBuilder<'a>)
    ensures
        aql.query_text() == try_acquire_aql_body_text(
            collection@,
            match filter { Some(f) => Some(f@), None => None },
            sort,
            limits,
            paths,
            node_id@,
            now@,
            expiration@,
            change_flag@,
        ),
        aql.steps().len() == try_acquire_aql_body_steps(filter is Some, sort is Some, limits is Some),
        aql.variable_count() == 0,
        aql.buildable(),
{
    proof {
        reveal_strlit("false");
        reveal_strlit("true");
    }
    let ghost sort0 = sort;
    let mut aql = AqlBuilder::new_for_in_collection(AQL_DOCUMENT_ID, collection);
    let ghost t0 = aql.query_text();
    if let Some(filter) = filter {
        aql.filter_step(String::from_str(filter));
    }
    let ghost t1 = aql.query_text();
    assert(t1 == t0 + (match filter { Some(f) => " FILTER "@ + f@, None => Seq::<char>::empty() }));
    aql.filter_step(own_lock_expired_filter(paths, now));
    let ghost t2 = aql.query_text();
    if let Some(sort) = sort {
        aql.sort_step(sort);
    }
    let ghost t3 = aql.query_text();
    assert(t3 == t2 + (match sort0 { Some(v) => AqlKind::Sort(v).query_text(), None => Seq::<char>::empty() }));
    if let Some(limits) = limits {
        aql.limit_step(limits);
    }
    let ghost t4 = aql.query_text();
    assert(t4 == t3 + (match limits { Some(l) => l.query_text(), None => Seq::<char>::empty() }));
    aql.update_step(
        AqlUpdate::new_document(collection, lock_value(paths, node_id, expiration, change_flag))
            .apply_ignore_errors(true),
    );
    aql.filter_step(written_filter());
    aql
}

/// Builds the query that takes the locks of the documents of `collection`
/// that pass `filter`, for the node `node_id`, and returns them; `now`,
/// `expiration` and `change_flag` are JSON texts.
pub fn try_acquire_aql_query<'a>(
    collection: &'a str,
    filter: Option<&str>,
    sort: Option<Vec<AqlSort>>,
    limits: Option<AqlLimit>,
    paths: MutexFieldPaths,
    node_id: &str,
    now: &str,
    expiration: &str,
    change_flag: &str,
) -> (aql: AqlBuilder<'a>)
    ensures
        aql.query_text() == try_acquire_aql_text(
            collection@,
            match filter { Some(f) => Some(f@), None => None },
            sort,
            limits,
            paths,
            node_id@,
            now@,
            expiration@,
            change_flag@,
        ),
        aql.variable_count() == 0,
        aql.buildable(),
{
    let mut aql = try_acquire_aql_body(collection, filter, sort, limits, paths, node_id, now, expiration, change_flag);
    aql.return_step(AqlReturn::new_updated());
    proof {
        reveal_strlit("DISTINCT ");
    }
    aql
}

/// Builds the query that takes the locks of the documents of `collection`
/// that pass `filter`, for the node `node_id`, and returns the mapping of
/// `return_fields` for each; `now`, `expiration` and `change_flag` are JSON
/// texts.
pub fn try_acquire_aql_query_with_fields<'a, T: AQLMapping>(
    collection: &'a str,
    filter: Option<&str>,
    sort: Option<Vec<AqlSort>>,
    limits: Option<AqlLimit>,
    paths: MutexFieldPaths,
    node_id: &str,
    now: &str,
    expiration: &str,
    change_flag: &str,
    return_fields: &T,
) -> (aql: AqlBuilder<'a>)
    requires
        return_fields.mapping_next_id(AQL_NEW_ID@, 0) <= AQL_MAX_VARIABLES,
    ensures
        ({
            let body = try_acquire_aql_body_text(
            collection@,
            match filter { Some(f) => Some(f@), None => None },
            sort,
            limits,
            paths,
            node_id@,
            now@,
            expiration@,
            change_flag@,
        );
            aql.query_text() == body + return_fields.lets_text(AQL_NEW_ID@, 0) + " RETURN "@
                + return_fields.mapping_text(AQL_NEW_ID@, 0)
        }),
        ({
            let n = try_acquire_aql_body_steps(filter is Some, sort is Some, limits is Some);
            &&& aql.steps().len() > n
            &&& forall|i: int| n <= i < aql.steps().len() - 1 ==> #[trigger] aql.steps()[i] is Let
        }),
        aql.steps().last() matches AqlKind::Return(r) && !r.distinct
            && r.expression@ == return_fields.mapping_text(AQL_NEW_ID@, 0),
        aql.variable_count() == 0,
        aql.buildable(),
{
    let mut aql = try_acquire_aql_body(collection, filter, sort, limits, paths, node_id, now, expiration, change_flag);
    aql.return_step_with_fields(AQL_NEW_ID, return_fields);
    aql
}

/// Builds the query that extends the locks of the documents `ids` of
/// `collection` that the node `node_id` holds under `change_flag`; `now`,
/// `expiration` and `change_flag` are JSON texts.
pub fn keep_alive_query<'a>(
    collection: &'a str,
    ids: &Vec<String>,
    paths: MutexFieldPaths,
    node_id: &str,
    change_flag: &str,
    now: &str,
    expiration: &str,
) -> (aql: AqlBuilder<'a>)
    ensures
        aql.query_text() == keep_alive_text(
            collection@, key_views(ids@), paths, node_id@, change_flag@, now@, expiration@,
        ),
        aql.variable_count() == 0,
        aql.buildable(),
{
    proof {
        reveal_strlit("false");
        reveal_strlit("true");
    }
    let list = json_string_array(ids);
    proof {
        assert(ids@.map_values(|k: String| k@) =~= key_views(ids@));
    }
    let mut aql = AqlBuilder::new_for_in_text(AQL_DOCUMENT_ID, list);
    aql.let_step(AqlLet {
        variable: String::from_str(MUTEX_DOCUMENT_ALIAS),
        expression: AqlLetKind::Expression(document_lookup(collection)),
    });
    aql.filter_step(lock_alive_filter(paths, node_id, change_flag, now));
    aql.update_step(
        AqlUpdate::new_document(collection, lock_extension(paths, expiration))
            .apply_ignore_errors(true),
    );
    aql.filter_step(written_filter());
    aql.return_step(AqlReturn::new_document());
    aql
}

/// Builds the query that releases the locks of the documents `ids` of
/// `collection` that the node `node_id` holds under `change_flag` (a JSON text).
pub fn release_query<'a>(
    collection: &'a str,
    ids: &Vec<String>,
    paths: MutexFieldPaths,
    node_id: &str,
    change_flag: &str,
) -> (aql: AqlBuilder<'a>)
    ensures
        aql.query_text() == release_text(collection@, key_views(ids@), paths, node_id@, change_flag@),
        aql.variable_count() == 0,
        aql.buildable(),
{
    proof {
        reveal_strlit("false");
        reveal_strlit("true");
    }
    let list = json_string_array(ids);
    proof {
        assert(ids@.map_values(|k: String| k@) =~= key_views(ids@));
    }
    let mut aql = AqlBuilder::new_for_in_text(AQL_DOCUMENT_ID, list);
    aql.let_step(AqlLet {
        variable: String::from_str(MUTEX_DOCUMENT_ALIAS),
        expression: AqlLetKind::Expression(document_lookup(collection)),
    });
    aql.filter_step(lock_held_filter(paths, node_id, change_flag));
    aql.update_step(
        AqlUpdate::new_document(collection, lock_removal()).apply_ignore_errors(true),
    );
    aql.filter_step(written_filter());
    aql.return_step(AqlReturn::new_document());
    aql
}

/// Builds the query that releases every lock the node `node_id` holds in `collection`.
pub fn release_all_query<'a>(collection: &'a str, paths: MutexFieldPaths, node_id: &str) -> (aql: AqlBuilder<'a>)
    ensures
        aql.query_text() == release_all_text(collection@, paths, node_id@),
        aql.variable_count() == 0,
        aql.buildable(),
{
    proof {
        reveal_strlit("false");
        reveal_strlit("true");
    }
    let mut aql = AqlBuilder::new_for_in_collection(AQL_DOCUMENT_ID, collection);
    aql.filter_step(own_node_filter(paths, node_id));
    aql.update_step(
        AqlUpdate::new(String::from_str(AQL_DOCUMENT_ID), collection, lock_removal())
            .apply_ignore_errors(true),
    );
    aql
}

/// Builds the query that tells whether the document with the key `key` (a
/// JSON text) exists in `collection`.
pub fn document_exists_query<'a>(collection: &str, key: &str) -> (aql: AqlBuilder<'a>)
    ensures
        aql.query_text() == document_exists_text(collection@, key@),
        aql.variable_count() == 0,
        aql.buildable(),
{
    let expression = concat(&["DOCUMENT(\"", collection, "\",", key, ")"]);
    proof {
        assert(views(seq!["DOCUMENT(\"", collection, "\",", key, ")"])
            =~= seq!["DOCUMENT(\""@, collection@, "\","@, key@, ")"@]);
    }
    let mut aql = AqlBuilder::new_simple();
    aql.let_step(AqlLet {
        variable: String::from_str(AQL_DOCUMENT_ID),
        expression: AqlLetKind::Expression(expression),
    });
    let condition = concat(&[AQL_DOCUMENT_ID, " != null"]);
    proof {
        assert(views(seq![AQL_DOCUMENT_ID, " != null"]) =~= seq![AQL_DOCUMENT_ID@, " != null"@]);
    }
    aql.filter_step(condition);
    aql.return_step(AqlReturn::new_expression(String::from_str("true")));
    aql
}

// LOCK STATE -----------------------------------------------------------------

/// The keys of a list of strings.
pub open spec fn key_views(keys: Seq<String>) -> Seq<Seq<char>> {
    keys.map_values(|k: String| k@)
}

/// What the keep-alive job does on one of its turns.
#[derive(Debug, Clone, Copy, PartialEq, Eq, Structural)]
pub enum KeepAliveAction {
    /// The locks are released: the job ends.
    Stop,
    /// No document is locked: nothing to extend this turn.
    Wait,
    /// The locks are extended with a query.
    Extend,
}

/// What releasing the locks does.
#[derive(Debug, Clone, Copy, PartialEq, Eq, Structural)]
pub enum ReleaseAction {
    /// They were released already: nothing to do.
    AlreadyReleased,
    /// No document is locked: nothing to send.
    NothingLocked,
    /// The locks are released with a query.
    Release,
}

/// What the keep-alive job of `state` does on its next turn.
pub open spec fn keep_alive_action_of(state: RemoteMutexState) -> KeepAliveAction {
    if !state.is_alive() {
        KeepAliveAction::Stop
    } else if forall|k: Seq<char>| !state.locks(k) {
        KeepAliveAction::Wait
    } else {
        KeepAliveAction::Extend
    }
}

/// What releasing the locks of `state` does.
pub open spec fn release_action_of(state: RemoteMutexState) -> ReleaseAction {
    if !state.is_alive() {
        ReleaseAction::AlreadyReleased
    } else if forall|k: Seq<char>| !state.locks(k) {
        ReleaseAction::NothingLocked
    } else {
        ReleaseAction::Release
    }
}

/// One step of keeping, from a list of keys, those that satisfy `keep`:
/// when the kept keys are those of `prev` that satisfy it, then after the
/// next key `key` is looked at (appended when `added`, which it is when it
/// satisfies `keep` and is not kept already), the kept keys are those of
/// `prev.push(key)` that satisfy it.
proof fn lemma_kept_keys_step(
    prev: Seq<Seq<char>>,
    key: Seq<char>,
    old_kept: Seq<Seq<char>>,
    new_kept: Seq<Seq<char>>,
    added: bool,
    keep: spec_fn(Seq<char>) -> bool,
)
    requires
        forall|k: Seq<char>| old_kept.contains(k) <==> (prev.contains(k) && keep(k)),
        new_kept == (if added { old_kept.push(key) } else { old_kept }),
        added ==> keep(key),
        !added ==> (!keep(key) || old_kept.contains(key)),
    ensures
        forall|k: Seq<char>| new_kept.contains(k) <==> (prev.push(key).contains(k) && keep(k)),
{
    let next = prev.push(key);
    assert forall|k: Seq<char>| new_kept.contains(k) <==> (next.contains(k) && keep(k)) by {
        if next.contains(k) && keep(k) {
            let m = choose|m: int| 0 <= m < next.len() && next[m] == k;
            if m < prev.len() {
                assert(prev[m] == k);
                assert(old_kept.contains(k));
                let n = choose|n: int| 0 <= n < old_kept.len() && old_kept[n] == k;
                assert(new_kept[n] == k);
            } else if added {
                assert(new_kept[old_kept.len() as int] == k);
            }
        }
        if new_kept.contains(k) {
            let n = choose|n: int| 0 <= n < new_kept.len() && new_kept[n] == k;
            if n < old_kept.len() {
                assert(old_kept[n] == k);
                assert(old_kept.contains(k));
                let m = choose|m: int| 0 <= m < prev.len() && prev[m] == k;
                assert(next[m] == k);
            } else {
                assert(next[prev.len() as int] == k);
            }
        }
    }
}

/// The documents a node has locked with one taking of the locks (one change
/// flag), and whether the locks are still kept alive.
pub struct RemoteMutexState {
    elements: Vec<String>,
    change_flag: String,
    alive: bool,
}

impl RemoteMutexState {
    /// The keys of the locked documents, each once.
    pub closed spec fn ids(&self) -> Seq<Seq<char>> {
        key_views(self.elements@)
    }

    /// Whether the document with the key `id` is locked.
    pub open spec fn locks(&self, id: Seq<char>) -> bool {
        self.ids().contains(id)
    }

    /// The change flag of this taking of the locks.
    pub closed spec fn flag(&self) -> Seq<char> {
        self.change_flag@
    }

    /// Whether the locks are still kept alive (not released).
    pub closed spec fn is_alive(&self) -> bool {
        self.alive
    }

    #[verifier::type_invariant]
    closed spec fn no_duplicates(&self) -> bool {
        self.ids().no_duplicates()
    }

    /// The keys in `keys`, each once, in the order they first appear.
    fn unique_keys(keys: Vec<String>) -> (r: Vec<String>)
        ensures
            key_views(r@).no_duplicates(),
            forall|k: Seq<char>| key_views(r@).contains(k) <==> key_views(keys@).contains(k),
    {
        let mut r: Vec<String> = Vec::new();
        let mut i: usize = 0;
        while i < keys.len()
            invariant
                0 <= i <= keys@.len(),
                key_views(r@).no_duplicates(),
                forall|k: Seq<char>| key_views(r@).contains(k) <==> key_views(keys@.take(i as int)).contains(k),
            decreases keys@.len() - i,
        {
            let key = &keys[i];
            let mut found = false;
            let mut j: usize = 0;
            while j < r.len()
                invariant
                    0 <= j <= r@.len(),
                    found <==> exists|m: int| 0 <= m < j && r@[m]@ == key@,
                decreases r@.len() - j,
            {
                if r[j] == *key {
                    found = true;
                }
                j = j + 1;
            }
            let ghost prev = key_views(keys@.take(i as int));
            let ghost next = key_views(keys@.take(i as int + 1));
            proof {
                assert(next =~= prev.push(key@));
                if found {
                    let m = choose|m: int| 0 <= m < j && r@[m]@ == key@;
                    assert(key_views(r@)[m] == key@);
                }
            }
            let ghost old_r = key_views(r@);
            if !found {
                r.push(key.clone());
                proof {
                    assert(key_views(r@) =~= old_r.push(key@));
                }
            }
            proof {
                lemma_kept_keys_step(prev, key@, old_r, key_views(r@), !found, |k: Seq<char>| true);
                assert(next =~= prev.push(key@));
            }
            i = i + 1;
        }
        proof {
            assert(keys@.take(i as int) =~= keys@);
        }
        r
    }

    /// The locks taken on the documents with the keys `keys` (the keys of the
    /// documents a lock query returned), under `change_flag`.
    pub fn new(keys: Vec<String>, change_flag: String) -> (r: RemoteMutexState)
        ensures
            forall|k: Seq<char>| r.locks(k) <==> key_views(keys@).contains(k),
            r.flag() == change_flag@,
            r.is_alive(),
    {
        RemoteMutexState { elements: Self::unique_keys(keys), change_flag, alive: true }
    }

    // GETTERS ----------------------------------------------------------------

    /// Whether no document is locked.
    pub fn is_empty(&self) -> (r: bool)
        ensures
            r <==> forall|k: Seq<char>| !self.locks(k),
    {
        proof {
            if self.elements@.len() > 0 {
                assert(self.ids()[0] == self.elements@[0]@);
                assert(self.locks(self.elements@[0]@));
            }
        }
        self.elements.len() == 0
    }

    /// Whether the document with the key `id` is locked.
    pub fn is_id_locked(&self, id: &String) -> (r: bool)
        ensures
            r == self.locks(id@),
    {
        let mut j: usize = 0;
        while j < self.elements.len()
            invariant
                0 <= j <= self.elements@.len(),
                forall|m: int| 0 <= m < j ==> self.elements@[m]@ != id@,
            decreases self.elements@.len() - j,
        {
            if self.elements[j] == *id {
                proof {
                    assert(self.ids()[j as int] == id@);
                }
                return true;
            }
            j = j + 1;
        }
        false
    }

    /// The keys of the locked documents.
    pub fn elements(&self) -> (r: &Vec<String>)
        ensures
            key_views(r@) == self.ids(),
    {
        &self.elements
    }

    /// The change flag of this taking of the locks.
    pub fn change_flag(&self) -> (r: &String)
        ensures
            r@ == self.flag(),
    {
        &self.change_flag
    }

    /// Whether the locks are still kept alive.
    pub fn alive(&self) -> (r: bool)
        ensures
            r == self.is_alive(),
    {
        self.alive
    }

    /// The keys in `keys` other than `id`.
    fn without_key(keys: &Vec<String>, id: &String) -> (r: Vec<String>)
        requires
            key_views(keys@).no_duplicates(),
        ensures
            key_views(r@).no_duplicates(),
            forall|k: Seq<char>| key_views(r@).contains(k) <==> (key_views(keys@).contains(k) && k != id@),
    {
        let mut r: Vec<String> = Vec::new();
        let mut i: usize = 0;
        while i < keys.len()
            invariant
                0 <= i <= keys@.len(),
                key_views(keys@).no_duplicates(),
                key_views(r@).no_duplicates(),
                forall|k: Seq<char>| key_views(r@).contains(k)
                    <==> (key_views(keys@.take(i as int)).contains(k) && k != id@),
            decreases keys@.len() - i,
        {
            let ghost prev = key_views(keys@.take(i as int));
            let ghost next = key_views(keys@.take(i as int + 1));
            let ghost old_r = key_views(r@);
            let ghost key = keys@[i as int]@;
            proof {
                assert(next =~= prev.push(key));
                assert(key_views(keys@)[i as int] == key);
                assert(!prev.contains(key)) by {
                    if prev.contains(key) {
                        let m = choose|m: int| 0 <= m < prev.len() && prev[m] == key;
                        assert(key_views(keys@)[m] == key);
                    }
                }
            }
            if keys[i] != *id {
                r.push(keys[i].clone());
                proof {
                    assert(key_views(r@) =~= old_r.push(key));
                    assert(!old_r.contains(key));
                }
            }
            proof {
                lemma_kept_keys_step(prev, key, old_r, key_views(r@), key != id@, |k: Seq<char>| k != id@);
            }
            i = i + 1;
        }
        proof {
            assert(keys@.take(i as int) =~= keys@);
        }
        r
    }

    // METHODS ----------------------------------------------------------------

    /// Forgets the lock of the document with the key `id`, as when the
    /// document is removed before its lock is released.
    pub fn remove_id(&mut self, id: &String)
        ensures
            forall|k: Seq<char>| final(self).locks(k) <==> (old(self).locks(k) && k != id@),
            final(self).flag() == old(self).flag(),
            final(self).is_alive() == old(self).is_alive(),
    {
        proof {
            use_type_invariant(&*self);
        }
        let elements = Self::without_key(&self.elements, id);
        self.elements = elements;
    }

    /// Moves the lock of the document with the key `id` to a new state of its
    /// own, kept alive on its own; `None` when that document is not locked.
    pub fn pop(&mut self, id: String) -> (r: Option<RemoteMutexState>)
        ensures
            r is Some <==> old(self).locks(id@),
            forall|k: Seq<char>| final(self).locks(k) <==> (old(self).locks(k) && k != id@),
            final(self).flag() == old(self).flag(),
            final(self).is_alive() == old(self).is_alive(),
            r matches Some(moved) ==> {
                &&& forall|k: Seq<char>| moved.locks(k) <==> k == id@
                &&& moved.flag() == old(self).flag()
                &&& moved.is_alive()
            },
    {
        if !self.is_id_locked(&id) {
            return None;
        }
        self.remove_id(&id);
        let mut elements: Vec<String> = Vec::new();
        elements.push(id);
        let moved = RemoteMutexState { elements, change_flag: self.change_flag.clone(), alive: true };
        proof {
            assert(key_views(moved.elements@) =~= seq![id@]);
            assert forall|k: Seq<char>| moved.locks(k) <==> k == id@ by {
                if k == id@ {
                    assert(moved.ids()[0] == k);
                }
            }
        }
        Some(moved)
    }

    /// What the keep-alive job does on its next turn.
    pub fn keep_alive_action(&self) -> (r: KeepAliveAction)
        ensures
            r == keep_alive_action_of(*self),
    {
        if !self.alive {
            KeepAliveAction::Stop
        } else if self.is_empty() {
            KeepAliveAction::Wait
        } else {
            KeepAliveAction::Extend
        }
    }

    /// Takes the answer of the keep-alive query: the keys of the documents
    /// whose locks were extended, or `None` when the query failed. The locks
    /// stay alive (and the result is `true`) only when some were extended;
    /// then exactly those stay locked.
    pub fn apply_keep_alive_result(&mut self, result: Option<Vec<String>>) -> (r: bool)
        requires
            old(self).is_alive(),
        ensures
            r <==> (result matches Some(keys) && keys@.len() > 0),
            final(self).is_alive() == r,
            final(self).flag() == old(self).flag(),
            r ==> forall|k: Seq<char>| final(self).locks(k) <==> key_views(result->Some_0@).contains(k),
            !r ==> forall|k: Seq<char>| final(self).locks(k) <==> old(self).locks(k),
    {
        proof {
            use_type_invariant(&*self);
        }
        match result {
            Some(keys) => {
                if keys.len() == 0 {
                    self.alive = false;
                    false
                } else {
                    self.elements = Self::unique_keys(keys);
                    true
                }
            },
            None => {
                self.alive = false;
                false
            },
        }
    }

    /// Starts releasing the locks: they stop being kept alive, and the
    /// result says whether a release query must be sent.
    pub fn begin_release(&mut self) -> (r: ReleaseAction)
        ensures
            r == release_action_of(*old(self)),
            !final(self).is_alive(),
            final(self).flag() == old(self).flag(),
            forall|k: Seq<char>| final(self).locks(k) <==> old(self).locks(k),
    {
        proof {
            use_type_invariant(&*self);
        }
        if !self.alive {
            return ReleaseAction::AlreadyReleased;
        }
        let empty = self.is_empty();
        self.alive = false;
        if empty {
            ReleaseAction::NothingLocked
        } else {
            ReleaseAction::Release
        }
    }

    /// The keys of the locked documents that the release query did not
    /// report as released (`released`).
    pub fn unreleased(&self, released: &Vec<String>) -> (r: Vec<String>)
        ensures
            forall|k: Seq<char>| key_views(r@).contains(k)
                <==> (self.locks(k) && !key_views(released@).contains(k)),
    {
        let mut r: Vec<String> = Vec::new();
        let mut i: usize = 0;
        while i < self.elements.len()
            invariant
                0 <= i <= self.elements@.len(),
                forall|k: Seq<char>| key_views(r@).contains(k)
                    <==> (key_views(self.elements@.take(i as int)).contains(k)
                        && !key_views(released@).contains(k)),
            decreases self.elements@.len() - i,
        {
            let ghost prev = key_views(self.elements@.take(i as int));
            let ghost next = key_views(self.elements@.take(i as int + 1));
            let ghost old_r = key_views(r@);
            let ghost key = self.elements@[i as int]@;
            let mut found = false;
            let mut j: usize = 0;
            while j < released.len()
                invariant
                    0 <= j <= released@.len(),
                    i < self.elements@.len(),
                    key == self.elements@[i as int]@,
                    found <==> exists|m: int| 0 <= m < j && released@[m]@ == key,
                decreases released@.len() - j,
            {
                if released[j] == self.elements[i] {
                    found = true;
                }
                j = j + 1;
            }
            proof {
                assert(next =~= prev.push(key));
                if found {
                    let m = choose|m: int| 0 <= m < j && released@[m]@ == key;
                    assert(key_views(released@)[m] == key);
                } else {
                    assert forall|m: int| 0 <= m < key_views(released@).len()
                        implies key_views(released@)[m] != key by {
                        assert(released@[m]@ != key);
                    }
                }
            }
            if !found {
                r.push(self.elements[i].clone());
                proof {
                    assert(key_views(r@) =~= old_r.push(key));
                }
            }
            proof {
                lemma_kept_keys_step(
                    prev,
                    key,
                    old_r,
                    key_views(r@),
                    !found,
                    |k: Seq<char>| !key_views(released@).contains(k),
                );
            }
            i = i + 1;
        }
        proof {
            assert(self.elements@.take(i as int) =~= self.elements@);
        }
        r
    }
}

// TAKING A LOCK WITH A TIMEOUT -----------------------------------------------

/// The shortest wait, in milliseconds, between two tries to take a lock.
pub const REMOTE_MUTEX_ACQUIRE_MIN_INTERVAL: u64 = 100;
/// The wait, in milliseconds, between two tries to take a lock stays under this.
pub const REMOTE_MUTEX_ACQUIRE_MAX_INTERVAL: u64 = 150;
/// Seconds between two extensions of the locks a node holds.
pub const REMOTE_MUTEX_ALIVE_INTERVAL: u64 = 80;
/// Seconds a lock lasts unless it is extended.
pub const REMOTE_MUTEX_EXPIRATION: u64 = 120;

/// A number drawn at random in `low..high` by the random generator of the
/// thread (`rand::thread_rng().gen_range(low..high)`); the generator gives
/// some value of that range, and nothing more is claimed of it.
#[verifier::external_body]
fn random_in_range(low: u64, high: u64) -> (r: u64)
    requires
        low < high,
    ensures
        low <= r < high,
{
    rand::thread_rng().gen_range(low..high)
}

/// What happened on a turn of taking a lock with a timeout.
#[derive(Debug, Clone, Copy, PartialEq, Eq, Structural)]
pub enum AcquireEvent {
    /// The time allowed has passed before the turn.
    TimedOut,
    /// The turn took the lock.
    Acquired,
    /// The turn found the lock held by another node.
    Busy,
    /// The check whether the document exists has answered.
    DocumentChecked { exists: bool },
}

/// What to do after a turn of taking a lock with a timeout.
#[derive(Debug, Clone, Copy, PartialEq, Eq, Structural)]
pub enum AcquireStep {
    /// Stop without the lock.
    GiveUp,
    /// Stop: the lock is taken.
    Done,
    /// Check whether the document exists.
    CheckDocument,
    /// Wait `wait_ms` milliseconds, then try again.
    Retry { wait_ms: u64 },
}

/// The state of taking a lock with a timeout after an event, and what to do:
/// the existence of the document is checked once, after the first try that
/// finds the lock held, and a missing document ends the attempt at once.
pub open spec fn acquire_transition(checked: bool, event: AcquireEvent) -> (bool, AcquireStep) {
    match event {
        AcquireEvent::TimedOut => (checked, AcquireStep::GiveUp),
        AcquireEvent::Acquired => (checked, AcquireStep::Done),
        AcquireEvent::Busy => if checked {
            (checked, AcquireStep::Retry { wait_ms: 0 })
        } else {
            (checked, AcquireStep::CheckDocument)
        },
        AcquireEvent::DocumentChecked { exists } => if exists {
            (true, AcquireStep::Retry { wait_ms: 0 })
        } else {
            (checked, AcquireStep::GiveUp)
        },
    }
}

/// Whether two steps agree but for the wait of a retry.
pub open spec fn same_step(a: AcquireStep, b: AcquireStep) -> bool {
    match (a, b) {
        (AcquireStep::Retry { .. }, AcquireStep::Retry { .. }) => true,
        _ => a == b,
    }
}

/// Taking a lock with a timeout: the decisions between the tries.
pub struct AcquireAttempt {
    checked_document: bool,
}

impl AcquireAttempt {
    /// Whether the existence of the document has been checked already.
    pub closed spec fn checked(&self) -> bool {
        self.checked_document
    }

    /// An attempt that has not checked the document yet.
    pub fn new() -> (r: AcquireAttempt)
        ensures
            !r.checked(),
    {
        AcquireAttempt { checked_document: false }
    }

    /// Takes what happened on a turn and tells what to do next; a retry waits
    /// a random time of `REMOTE_MUTEX_ACQUIRE_MIN_INTERVAL` to just under
    /// `REMOTE_MUTEX_ACQUIRE_MAX_INTERVAL` milliseconds.
    pub fn next(&mut self, event: AcquireEvent) -> (r: AcquireStep)
        ensures
            final(self).checked() == acquire_transition(old(self).checked(), event).0,
            same_step(r, acquire_transition(old(self).checked(), event).1),
            r matches AcquireStep::Retry { wait_ms } ==> REMOTE_MUTEX_ACQUIRE_MIN_INTERVAL <= wait_ms
                < REMOTE_MUTEX_ACQUIRE_MAX_INTERVAL,
    {
        match event {
            AcquireEvent::TimedOut => AcquireStep::GiveUp,
            AcquireEvent::Acquired => AcquireStep::Done,
            AcquireEvent::Busy => {
                if self.checked_document {
                    AcquireStep::Retry {
                        wait_ms: random_in_range(REMOTE_MUTEX_ACQUIRE_MIN_INTERVAL, REMOTE_MUTEX_ACQUIRE_MAX_INTERVAL),
                    }
                } else {
                    AcquireStep::CheckDocument
                }
            },
            AcquireEvent::DocumentChecked { exists } => {
                if exists {
                    self.checked_document = true;
                    AcquireStep::Retry {
                        wait_ms: random_in_range(REMOTE_MUTEX_ACQUIRE_MIN_INTERVAL, REMOTE_MUTEX_ACQUIRE_MAX_INTERVAL),
                    }
                } else {
                    AcquireStep::GiveUp
                }
            },
        }
    }
}

// LAWS -----------------------------------------------------------------------

/// Once the locks are released (or their keep-alive failed), they are neither
/// extended nor released again.
pub proof fn lemma_released_locks_stay_released(state: RemoteMutexState)
    requires
        !state.is_alive(),
    ensures
        release_action_of(state) == ReleaseAction::AlreadyReleased,
        keep_alive_action_of(state) == KeepAliveAction::Stop,
{
}

/// A live state with locks sends its queries: the keep-alive job extends
/// them, and a release releases them.
pub proof fn lemma_live_locks_are_sent(state: RemoteMutexState, id: Seq<char>)
    requires
        state.is_alive(),
        state.locks(id),
    ensures
        release_action_of(state) == ReleaseAction::Release,
        keep_alive_action_of(state) == KeepAliveAction::Extend,
{
}


/// The existence of the document is checked at most once: once it is known
/// to exist, a try that finds the lock held waits and tries again.
pub proof fn lemma_document_checked_once(checked: bool, event: AcquireEvent)
    requires
        checked,
    ensures
        acquire_transition(checked, event).0,
        acquire_transition(checked, event).1 != AcquireStep::CheckDocument,
{
}

/// A timeout ends the attempt without the lock, and a taken lock ends it
/// with the lock, whatever was checked before.
pub proof fn lemma_attempt_ends(checked: bool)
    ensures
        acquire_transition(checked, AcquireEvent::TimedOut).1 == AcquireStep::GiveUp,
        acquire_transition(checked, AcquireEvent::Acquired).1 == AcquireStep::Done,
        acquire_transition(checked, AcquireEvent::DocumentChecked { exists: false }).1 == AcquireStep::GiveUp,
{
}

} // verus!
