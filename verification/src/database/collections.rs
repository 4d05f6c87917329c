//! The collections of the database.

use vstd::prelude::*;
use core::convert::TryFrom;
use vstd::string::StringExecFns;
use crate::text::{bool_text, concat, concat_all, str_eq, views};
use crate::database::aql::{AqlBuilder, AqlKind, AqlRemove, AqlReturn, AQL_DOCUMENT_ID, AQL_MAX_VARIABLES};
use crate::database::aql::builder::lemma_same_setup_same_head;
use crate::database::documents::{document_field_path, DBDocumentField};
use crate::database::mapping::AQLMapping;
use crate::database::aql::json::{json_string, json_string_text};
use crate::database::indexes::AUTHENTICATION_ADDRESS_FIELD;

verus! {

/// A collection of the database.
#[derive(Debug, Copy, Clone, Eq, PartialEq, Hash, Structural)]
pub enum CollectionKind {
    Configuration,
    Mutexes,
    Challenges,
    Participants,
    Bets,
    Signatures,
    Authentications,
    Emails,
}

/// The name of a collection in the database.
pub open spec fn collection_name(kind: CollectionKind) -> Seq<char> {
    match kind {
        CollectionKind::Configuration => "Configuration"@,
        CollectionKind::Mutexes => "Mutexes"@,
        CollectionKind::Challenges => "Challenges"@,
        CollectionKind::Participants => "Participants"@,
        CollectionKind::Bets => "Bets"@,
        CollectionKind::Signatures => "Signatures"@,
        CollectionKind::Authentications => "Authentications"@,
        CollectionKind::Emails => "Emails"@,
    }
}

/// The collection with a given name, if any.
pub open spec fn collection_from_name(name: Seq<char>) -> Result<CollectionKind, ()> {
    if name == "Configuration"@ {
        Ok(CollectionKind::Configuration)
    } else if name == "Mutexes"@ {
        Ok(CollectionKind::Mutexes)
    } else if name == "Challenges"@ {
        Ok(CollectionKind::Challenges)
    } else if name == "Participants"@ {
        Ok(CollectionKind::Participants)
    } else if name == "Bets"@ {
        Ok(CollectionKind::Bets)
    } else if name == "Signatures"@ {
        Ok(CollectionKind::Signatures)
    } else if name == "Authentications"@ {
        Ok(CollectionKind::Authentications)
    } else if name == "Emails"@ {
        Ok(CollectionKind::Emails)
    } else {
        Err(())
    }
}

/// Whether the documents of a collection are locked by remote mutexes, so
/// that the locks a node left must be released when it starts.
pub open spec fn has_document_locks(kind: CollectionKind) -> bool {
    match kind {
        CollectionKind::Mutexes | CollectionKind::Challenges | CollectionKind::Participants
        | CollectionKind::Bets => true,
        _ => false,
    }
}

impl CollectionKind {
    /// Whether the documents of this collection are locked by remote
    /// mutexes, so that the locks a node left must be released when it
    /// starts.
    pub fn holds_document_locks(&self) -> (r: bool)
        ensures
            r == has_document_locks(*self),
    {
        match self {
            CollectionKind::Mutexes | CollectionKind::Challenges | CollectionKind::Participants
            | CollectionKind::Bets => true,
            _ => false,
        }
    }

    /// The name of the collection in the database.
    pub fn name(&self) -> (r: &'static str)
        ensures
            r@ == collection_name(*self),
    {
        match self {
            CollectionKind::Configuration => "Configuration",
            CollectionKind::Mutexes => "Mutexes",
            CollectionKind::Challenges => "Challenges",
            CollectionKind::Participants => "Participants",
            CollectionKind::Bets => "Bets",
            CollectionKind::Signatures => "Signatures",
            CollectionKind::Authentications => "Authentications",
            CollectionKind::Emails => "Emails",
        }
    }

    /// All collections, in declaration order.
    pub fn enum_list() -> (r: &'static [CollectionKind])
        ensures
            r@ == seq![
                CollectionKind::Configuration,
                CollectionKind::Mutexes,
                CollectionKind::Challenges,
                CollectionKind::Participants,
                CollectionKind::Bets,
                CollectionKind::Signatures,
                CollectionKind::Authentications,
                CollectionKind::Emails,
            ],
    {
        &[
            CollectionKind::Configuration,
            CollectionKind::Mutexes,
            CollectionKind::Challenges,
            CollectionKind::Participants,
            CollectionKind::Bets,
            CollectionKind::Signatures,
            CollectionKind::Authentications,
            CollectionKind::Emails,
        ]
    }
}

impl<'a> TryFrom<&'a str> for CollectionKind {
    type Error = ();

    /// The collection with the given name; `Err(())` for an unknown name.
    fn try_from(value: &'a str) -> (r: Result<Self, Self::Error>) {
        if str_eq(value, "Configuration") {
            Ok(CollectionKind::Configuration)
        } else if str_eq(value, "Mutexes") {
            Ok(CollectionKind::Mutexes)
        } else if str_eq(value, "Challenges") {
            Ok(CollectionKind::Challenges)
        } else if str_eq(value, "Participants") {
            Ok(CollectionKind::Participants)
        } else if str_eq(value, "Bets") {
            Ok(CollectionKind::Bets)
        } else if str_eq(value, "Signatures") {
            Ok(CollectionKind::Signatures)
        } else if str_eq(value, "Authentications") {
            Ok(CollectionKind::Authentications)
        } else if str_eq(value, "Emails") {
            Ok(CollectionKind::Emails)
        } else {
            Err(())
        }
    }
}

impl<'a> vstd::std_specs::convert::TryFromSpecImpl<&'a str> for CollectionKind {
    open spec fn obeys_try_from_spec() -> bool {
        true
    }

    open spec fn try_from_spec(value: &'a str) -> Result<Self, Self::Error> {
        collection_from_name(value@)
    }
}

// MISSING DOCUMENTS ----------------------------------------------------------

/// The message that answers a request about a missing document of a
/// collection; the configuration has none, since it always exists.
pub open spec fn undefined_document_message(kind: CollectionKind) -> Seq<char> {
    match kind {
        CollectionKind::Configuration => Seq::empty(),
        CollectionKind::Mutexes => "Undefined mutex"@,
        CollectionKind::Challenges => "Undefined challenge"@,
        CollectionKind::Participants => "Undefined participant"@,
        CollectionKind::Bets => "Undefined bet"@,
        CollectionKind::Signatures => "Undefined signature"@,
        CollectionKind::Authentications => "Undefined authentication"@,
        CollectionKind::Emails => "Undefined email"@,
    }
}

/// A request asked for a document that its collection does not hold.
#[derive(Debug, Clone, Copy, PartialEq, Eq, Structural)]
pub struct UndefinedDocumentError {
    pub collection: CollectionKind,
}

impl UndefinedDocumentError {
    /// The HTTP status of the answer: a bad request.
    pub fn status_code(&self) -> (r: u16)
        ensures
            r == 400,
    {
        400
    }

    /// The message of the answer.
    pub fn message(&self) -> (r: &'static str)
        requires
            !(self.collection is Configuration),
        ensures
            r@ == undefined_document_message(self.collection),
    {
        match self.collection {
            CollectionKind::Mutexes => "Undefined mutex",
            CollectionKind::Challenges => "Undefined challenge",
            CollectionKind::Participants => "Undefined participant",
            CollectionKind::Bets => "Undefined bet",
            CollectionKind::Signatures => "Undefined signature",
            CollectionKind::Authentications => "Undefined authentication",
            CollectionKind::Emails => "Undefined email",
            CollectionKind::Configuration => unreached(),
        }
    }
}

/// The document that a lookup in `collection` found, or the rejection of a
/// request about a missing one.
pub fn resolve_or_reject<T>(document: Option<T>, collection: CollectionKind) -> (r: Result<
    T,
    UndefinedDocumentError,
>)
    ensures
        match document {
            Some(v) => r == Ok::<T, UndefinedDocumentError>(v),
            None => r == Err::<T, UndefinedDocumentError>(UndefinedDocumentError { collection }),
        },
{
    match document {
        Some(v) => Ok(v),
        None => Err(UndefinedDocumentError { collection }),
    }
}

// QUERIES --------------------------------------------------------------------

/// `i.A == <address as JSON>`: the filter on the address of an authentication.
pub open spec fn address_filter_text(address: Seq<char>) -> Seq<char> {
    concat_all(seq![AQL_DOCUMENT_ID@, "."@, AUTHENTICATION_ADDRESS_FIELD@, " == "@, json_string_text(address)])
}

/// `FOR i IN Authentications FILTER i.A == <address> REMOVE i IN
/// Authentications OPTIONS { ignoreRevs: false, ignoreErrors: true }`.
pub open spec fn remove_by_address_text(address: Seq<char>) -> Seq<char> {
    let name = collection_name(CollectionKind::Authentications);
    "FOR "@ + AQL_DOCUMENT_ID@ + " IN "@ + name + " FILTER "@ + address_filter_text(address)
        + " REMOVE "@ + AQL_DOCUMENT_ID@ + " IN "@ + name
        + " OPTIONS { ignoreRevs: false, ignoreErrors: true }"@
}

/// The query that removes the authentications of `address`.
pub fn remove_by_address_query<'a>(address: &str) -> (aql: AqlBuilder<'a>)
    ensures
        aql.query_text() == remove_by_address_text(address@),
        aql.variable_count() == 0,
        aql.buildable(),
{
    let collection = CollectionKind::Authentications.name();
    let mut aql = AqlBuilder::new_for_in_collection(AQL_DOCUMENT_ID, collection);
    let address_json = json_string(address);
    let parts = [AQL_DOCUMENT_ID, ".", AUTHENTICATION_ADDRESS_FIELD, " == ", address_json.as_str()];
    proof {
        assert(views(parts@) =~= seq![
            AQL_DOCUMENT_ID@,
            "."@,
            AUTHENTICATION_ADDRESS_FIELD@,
            " == "@,
            json_string_text(address@),
        ]);
    }
    let condition = concat(&parts);
    aql.filter_step(condition);
    aql.remove_step(AqlRemove::new_document(collection));
    proof {
        reveal_strlit("false");
        reveal_strlit("true");
        reveal_strlit(" OPTIONS { ignoreRevs: ");
        reveal_strlit(", ignoreErrors: ");
        reveal_strlit(" }");
        reveal_strlit(" OPTIONS { ignoreRevs: false, ignoreErrors: true }");
        assert(bool_text(false) =~= "false"@);
        assert(bool_text(true) =~= "true"@);
        assert(" OPTIONS { ignoreRevs: "@ + "false"@ + ", ignoreErrors: "@ + "true"@ + " }"@
            =~= " OPTIONS { ignoreRevs: false, ignoreErrors: true }"@);
        assert(aql.query_text() =~= remove_by_address_text(address@));
    }
    aql
}

/// `i._from == <from as JSON> && i._to == <to as JSON>`.
pub open spec fn edge_filter_text(from: Seq<char>, to: Seq<char>) -> Seq<char> {
    concat_all(seq![
        AQL_DOCUMENT_ID@,
        "."@,
        document_field_path(DBDocumentField::From),
        " == "@,
        json_string_text(from),
        " && "@,
        AQL_DOCUMENT_ID@,
        "."@,
        document_field_path(DBDocumentField::To),
        " == "@,
        json_string_text(to),
    ])
}

/// `FOR i IN <collection> FILTER i._from == <from> && i._to == <to> RETURN i`:
/// the whole query of an edge lookup that returns whole edges.
pub open spec fn edge_lookup_text(collection: Seq<char>, from: Seq<char>, to: Seq<char>) -> Seq<char> {
    "FOR "@ + AQL_DOCUMENT_ID@ + " IN "@ + collection + " FILTER "@ + edge_filter_text(from, to) + " RETURN "@
        + AQL_DOCUMENT_ID@
}

/// `FOR i IN <collection> FILTER i._from == <from> && i._to == <to>`: the
/// start of the lookup of the edges from the document with the id `from` to
/// the one with the id `to`.
fn edge_filter_query<'a>(collection: &'a str, from: &str, to: &str) -> (aql: AqlBuilder<'a>)
    ensures
        aql.head_text() == "FOR "@ + AQL_DOCUMENT_ID@ + " IN "@ + collection@,
        aql.steps().len() == 1,
        aql.steps()[0] matches AqlKind::Filter(c) && c@ == edge_filter_text(from@, to@),
        aql.query_text() == "FOR "@ + AQL_DOCUMENT_ID@ + " IN "@ + collection@ + " FILTER "@ + edge_filter_text(
            from@,
            to@,
        ),
        aql.variable_count() == 0,
        aql.buildable(),
{
    let mut aql = AqlBuilder::new_for_in_collection(AQL_DOCUMENT_ID, collection);
    let ghost start = aql;
    let from_json = json_string(from);
    let to_json = json_string(to);
    let parts = [
        AQL_DOCUMENT_ID,
        ".",
        DBDocumentField::From.path(),
        " == ",
        from_json.as_str(),
        " && ",
        AQL_DOCUMENT_ID,
        ".",
        DBDocumentField::To.path(),
        " == ",
        to_json.as_str(),
    ];
    proof {
        assert(views(parts@) =~= seq![
            AQL_DOCUMENT_ID@,
            "."@,
            document_field_path(DBDocumentField::From),
            " == "@,
            json_string_text(from@),
            " && "@,
            AQL_DOCUMENT_ID@,
            "."@,
            document_field_path(DBDocumentField::To),
            " == "@,
            json_string_text(to@),
        ]);
    }
    let condition = concat(&parts);
    aql.filter_step(condition);
    proof {
        lemma_same_setup_same_head(start, aql);
    }
    aql
}

/// The lookup of the edges from the document with the id `from` to the one
/// with the id `to` in `collection`, returning each whole edge.
pub fn edge_lookup_query<'a>(collection: &'a str, from: &str, to: &str) -> (aql: AqlBuilder<'a>)
    ensures
        aql.query_text() == edge_lookup_text(collection@, from@, to@),
        aql.variable_count() == 0,
        aql.buildable(),
{
    let mut aql = edge_filter_query(collection, from, to);
    aql.return_step(AqlReturn::new_document());
    proof {
        reveal_strlit("DISTINCT ");
    }
    aql
}

/// The lookup of the edges from the document with the id `from` to the one
/// with the id `to` in `collection`, returning the mapping of
/// `return_fields` for each edge, after the `LET` steps that mapping needs.
pub fn edge_lookup_query_with_fields<'a, T: AQLMapping>(
    collection: &'a str,
    from: &str,
    to: &str,
    return_fields: &T,
) -> (aql: AqlBuilder<'a>)
    requires
        return_fields.mapping_next_id(AQL_DOCUMENT_ID@, 0) <= AQL_MAX_VARIABLES,
    ensures
        aql.head_text() == "FOR "@ + AQL_DOCUMENT_ID@ + " IN "@ + collection@,
        aql.steps().len() >= 2,
        aql.steps()[0] matches AqlKind::Filter(c) && c@ == edge_filter_text(from@, to@),
        forall|i: int| 1 <= i < aql.steps().len() - 1 ==> #[trigger] aql.steps()[i] is Let,
        aql.steps().last() matches AqlKind::Return(r) && !r.distinct
            && r.expression@ == return_fields.mapping_text(AQL_DOCUMENT_ID@, 0),
        aql.query_text() == "FOR "@ + AQL_DOCUMENT_ID@ + " IN "@ + collection@ + " FILTER "@
            + edge_filter_text(from@, to@) + return_fields.lets_text(AQL_DOCUMENT_ID@, 0) + " RETURN "@
            + return_fields.mapping_text(AQL_DOCUMENT_ID@, 0),
        aql.variable_count() == 0,
        aql.buildable(),
{
    let mut aql = edge_filter_query(collection, from, to);
    let ghost filtered = aql;
    aql.return_step_with_fields(AQL_DOCUMENT_ID, return_fields);
    proof {
        lemma_same_setup_same_head(filtered, aql);
        assert(aql.steps().subrange(0, 1)[0] == filtered.steps()[0]);
    }
    aql
}

/// Every collection is found again from its name.
pub proof fn lemma_collection_name_roundtrip(kind: CollectionKind)
    ensures
        collection_from_name(collection_name(kind)) == Ok::<CollectionKind, ()>(kind),
{
    reveal_strlit("Configuration");
    reveal_strlit("Mutexes");
    reveal_strlit("Challenges");
    reveal_strlit("Participants");
    reveal_strlit("Bets");
    reveal_strlit("Signatures");
    reveal_strlit("Authentications");
    reveal_strlit("Emails");
    assert("Mutexes"@.len() != "Configuration"@.len());
    assert("Challenges"@.len() != "Configuration"@.len());
    assert("Challenges"@.len() != "Mutexes"@.len());
    assert("Participants"@.len() != "Configuration"@.len());
    assert("Participants"@.len() != "Mutexes"@.len());
    assert("Participants"@.len() != "Challenges"@.len());
    assert("Bets"@.len() != "Configuration"@.len());
    assert("Bets"@.len() != "Mutexes"@.len());
    assert("Bets"@.len() != "Challenges"@.len());
    assert("Bets"@.len() != "Participants"@.len());
    assert("Signatures"@.len() != "Configuration"@.len());
    assert("Signatures"@.len() != "Mutexes"@.len());
    assert("Signatures"@[0] != "Challenges"@[0]);
    assert("Signatures"@.len() != "Participants"@.len());
    assert("Signatures"@.len() != "Bets"@.len());
    assert("Authentications"@.len() != "Configuration"@.len());
    assert("Authentications"@.len() != "Mutexes"@.len());
    assert("Authentications"@.len() != "Challenges"@.len());
    assert("Authentications"@.len() != "Participants"@.len());
    assert("Authentications"@.len() != "Bets"@.len());
    assert("Authentications"@.len() != "Signatures"@.len());
    assert("Emails"@.len() != "Configuration"@.len());
    assert("Emails"@.len() != "Mutexes"@.len());
    assert("Emails"@.len() != "Challenges"@.len());
    assert("Emails"@.len() != "Participants"@.len());
    assert("Emails"@.len() != "Bets"@.len());
    assert("Emails"@.len() != "Signatures"@.len());
    assert("Emails"@.len() != "Authentications"@.len());
}

/// Different collections have different names.
pub proof fn lemma_collection_names_distinct(a: CollectionKind, b: CollectionKind)
    requires
        a != b,
    ensures
        collection_name(a) != collection_name(b),
{
    lemma_collection_name_roundtrip(a);
    lemma_collection_name_roundtrip(b);
}

} // verus!
