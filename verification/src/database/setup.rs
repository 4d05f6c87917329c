//! Setting the database up: its name, the order its collections are created
//! in, and the requests that register the AQL functions of the backend.

use vstd::prelude::*;
use crate::text::{concat, concat_all, views};
use crate::database::collections::CollectionKind;
use crate::database::aql::OverwriteMode;
use crate::database::indexes::{collection_indexes_spec, ttl_index, unique_index, AUTHENTICATION_ADDRESS_FIELD, AUTHORIZATION_ADDRESS_INDEX};
use crate::database::writes::{write_options_of, write_step_of, DBRequestError, DocumentWrite, WriteStep};

verus! {

/// The name of the database.
pub const DATABASE_NAME: &'static str = "GMIData";
/// The namespace of the AQL functions the backend registers.
pub const DATABASE_FUNCTIONS_NAMESPACE: &'static str = "gmifn";

/// The collections created after the configuration, which is created first,
/// in the order of `CollectionKind::enum_list`.
pub open spec fn collections_after_configuration() -> Seq<CollectionKind> {
    seq![
        CollectionKind::Mutexes,
        CollectionKind::Challenges,
        CollectionKind::Participants,
        CollectionKind::Bets,
        CollectionKind::Signatures,
        CollectionKind::Authentications,
        CollectionKind::Emails,
    ]
}

/// The collections to create once the configuration exists: all the others.
pub fn collections_to_create() -> (r: Vec<CollectionKind>)
    ensures
        r@ == collections_after_configuration(),
        forall|i: int| 0 <= i < r@.len() ==> r@[i] != CollectionKind::Configuration,
{
    let all = CollectionKind::enum_list();
    let mut r: Vec<CollectionKind> = Vec::new();
    let mut i: usize = 0;
    while i < all.len()
        invariant
            all@ == seq![
                CollectionKind::Configuration,
                CollectionKind::Mutexes,
                CollectionKind::Challenges,
                CollectionKind::Participants,
                CollectionKind::Bets,
                CollectionKind::Signatures,
                CollectionKind::Authentications,
                CollectionKind::Emails,
            ],
            0 <= i <= all@.len(),
            r@ == if i == 0 {
                Seq::<CollectionKind>::empty()
            } else {
                collections_after_configuration().subrange(0, i - 1)
            },
        decreases all@.len() - i,
    {
        if all[i] != CollectionKind::Configuration {
            r.push(all[i]);
        }
        i = i + 1;
    }
    assert(r@ =~= collections_after_configuration());
    r
}

/// `<namespace>::<name>`: the name an AQL function of the backend is
/// registered under.
pub open spec fn aql_function_name(name: Seq<char>) -> Seq<char> {
    concat_all(seq![DATABASE_FUNCTIONS_NAMESPACE@, "::"@, name])
}

/// The name an AQL function of the backend is registered under.
pub fn function_name(name: &str) -> (r: String)
    ensures
        r@ == aql_function_name(name@),
{
    let parts = [DATABASE_FUNCTIONS_NAMESPACE, "::", name];
    proof {
        assert(views(parts@) =~= seq![DATABASE_FUNCTIONS_NAMESPACE@, "::"@, name@]);
    }
    concat(&parts)
}

/// A request to the AQL function API of the database.
#[derive(Debug, Clone, Copy, PartialEq, Eq, Structural)]
pub enum AqlFunctionRequest {
    /// Registers one function.
    Add,
    /// Removes every function of the namespace of the backend.
    RemoveAll,
}

/// The URL of a request, for the database at `database_url` (which ends with
/// a slash).
pub open spec fn aql_function_url(request: AqlFunctionRequest, database_url: Seq<char>) -> Seq<char> {
    match request {
        AqlFunctionRequest::Add => database_url + "_api/aqlfunction"@,
        AqlFunctionRequest::RemoveAll => concat_all(
            seq![database_url, "_api/aqlfunction/"@, DATABASE_FUNCTIONS_NAMESPACE@, "?group=true"@],
        ),
    }
}

impl AqlFunctionRequest {
    /// The URL of the request, for the database at `database_url`.
    pub fn url(&self, database_url: &str) -> (r: String)
        ensures
            r@ == aql_function_url(*self, database_url@),
    {
        match self {
            AqlFunctionRequest::Add => {
                let parts = [database_url, "_api/aqlfunction"];
                proof {
                    assert(views(parts@) =~= seq![database_url@, "_api/aqlfunction"@]);
                    assert(concat_all(views(parts@)) =~= database_url@ + "_api/aqlfunction"@) by {
                        reveal_with_fuel(concat_all, 3);
                        assert(views(parts@).drop_last() =~= seq![database_url@]);
                        assert(seq![database_url@].drop_last() =~= Seq::<Seq<char>>::empty());
                    }
                }
                concat(&parts)
            },
            AqlFunctionRequest::RemoveAll => {
                let parts = [database_url, "_api/aqlfunction/", DATABASE_FUNCTIONS_NAMESPACE, "?group=true"];
                proof {
                    assert(views(parts@) =~= seq![
                        database_url@,
                        "_api/aqlfunction/"@,
                        DATABASE_FUNCTIONS_NAMESPACE@,
                        "?group=true"@,
                    ]);
                }
                concat(&parts)
            },
        }
    }

    /// Whether the database accepted the request: a function is registered
    /// with 200 or 201, the functions are removed with 200.
    pub fn accepted(&self, status: u16) -> (r: bool)
        ensures
            r == match *self {
                AqlFunctionRequest::Add => status == 200 || status == 201,
                AqlFunctionRequest::RemoveAll => status == 200,
            },
    {
        match self {
            AqlFunctionRequest::Add => status == 200 || status == 201,
            AqlFunctionRequest::RemoveAll => status == 200,
        }
    }
}

/// The write of the token document of the backend into the authentications:
/// an insert that overwrites the document stored under its key and ignores
/// the result.
pub open spec fn token_write() -> DocumentWrite {
    DocumentWrite::InsertAndIgnore { overwrite: true }
}

/// The write of the token document of the backend into the authentications.
pub fn authentication_token_write() -> (r: DocumentWrite)
    ensures
        r == token_write(),
{
    DocumentWrite::InsertAndIgnore { overwrite: true }
}

/// Setting the authentications up again leaves them as the first setup did:
/// the same indexes are asked for, and the token document is written under
/// its own key, replacing the one stored there, since a conflict never makes
/// the write take another key.
pub proof fn lemma_authentication_setup_repeatable(
    node_path: Seq<char>,
    limit: Option<usize>,
    retries: nat,
    error: DBRequestError,
)
    ensures
        collection_indexes_spec(CollectionKind::Authentications, node_path) == seq![
            ttl_index(),
            (AUTHORIZATION_ADDRESS_INDEX@, seq![AUTHENTICATION_ADDRESS_FIELD@], unique_index()),
        ],
        write_options_of(token_write()).overwrite == Some(true),
        write_options_of(token_write()).overwrite_mode == Some(OverwriteMode::Replace),
        write_step_of(false, limit, retries, error).1 != WriteStep::RetryWithNewKey,
{
}


/// The database holds the configuration and then, in the order they are
/// created, the collections named `Mutexes`, `Challenges`, `Participants`,
/// `Bets`, `Signatures`, `Authentications` and `Emails`.
pub proof fn lemma_created_collection_names()
    ensures
        crate::database::collections::collection_name(CollectionKind::Configuration) == "Configuration"@,
        collections_after_configuration().map_values(|k: CollectionKind| crate::database::collections::collection_name(k))
            == seq![
                "Mutexes"@,
                "Challenges"@,
                "Participants"@,
                "Bets"@,
                "Signatures"@,
                "Authentications"@,
                "Emails"@,
            ],
{
    assert(collections_after_configuration().map_values(|k: CollectionKind| crate::database::collections::collection_name(k))
        =~= seq!["Mutexes"@, "Challenges"@, "Participants"@, "Bets"@, "Signatures"@, "Authentications"@, "Emails"@]);
}

} // verus!
