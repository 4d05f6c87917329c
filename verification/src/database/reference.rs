//! References from one document to another: either the key of the other
//! document, or the document itself, which a query then looks up.

use vstd::prelude::*;
use vstd::string::StringExecFns;
use crate::text::{concat, concat_all, views};
use crate::database::aql::{get_aql_inline_variable, AqlBuilder, AqlKind, AqlLet, AqlLetKind};
use crate::database::aql::builder::{inline_variable, lemma_same_setup_transitive};
use crate::database::aql::json::{json_string, json_string_text};
use crate::database::mapping::AQLMapping;
use crate::database::normalize::{DBNormalize, DBNormalizeResult};

verus! {

/// A document of a collection of the database.
pub trait DBDocument: DBNormalize + AQLMapping {
    /// The name of the collection that stores documents of this type.
    spec fn collection_name_view() -> Seq<char>;

    /// The key of the document, when it has one.
    spec fn key_of(&self) -> Option<String>;

    /// The name of the collection that stores documents of this type.
    fn collection_name() -> (r: &'static str)
        ensures
            r@ == Self::collection_name_view();

    /// The key of the document, when it has one.
    fn db_key(&self) -> (r: &Option<String>)
        ensures
            *r == self.key_of();
}

/// A document whose fields the public API hands out.
pub trait APIDocument {
    /// The key of the document, when it has one.
    fn id(&self) -> &Option<String>;

    /// Whether all the fields are missing.
    fn is_all_missing(&self) -> bool;
}

/// A document of an edge collection: it links the document with the id
/// `db_from` to the one with the id `db_to`.
pub trait DBEdgeDocument: DBDocument {
    fn db_from(&self) -> &Option<String>;

    fn db_to(&self) -> &Option<String>;
}

/// The key of a referenced document.
#[derive(Debug, Clone)]
pub struct DBReferenceKey {
    key: String,
}

impl DBReferenceKey {
    /// The key.
    pub closed spec fn value(&self) -> Seq<char> {
        self.key@
    }
}

/// A reference to a document: its key, or the document itself.
#[derive(Debug, Clone)]
pub enum DBReference<T: DBDocument> {
    Document(Box<T>),
    Key(DBReferenceKey),
}

/// The JSON text of an optional key: the JSON string of the key, or `null`.
pub open spec fn key_json_text(key: Option<String>) -> Seq<char> {
    match key {
        Some(k) => json_string_text(k@),
        None => "null"@,
    }
}

/// `DOCUMENT("<collection>",<key as JSON>)`: the lookup of a document.
pub open spec fn document_lookup(collection: Seq<char>, key: Option<String>) -> Seq<char> {
    concat_all(seq!["DOCUMENT(\""@, collection, "\","@, key_json_text(key), ")"@])
}

impl<T: DBDocument> DBReference<T> {
    /// The key this reference points at: its own, or that of its document.
    pub open spec fn key_view(&self) -> Option<Seq<char>> {
        match self {
            DBReference::Key(k) => Some(k.value()),
            DBReference::Document(d) => match d.key_of() {
                Some(k) => Some(k@),
                None => None,
            },
        }
    }

    // CONSTRUCTORS -----------------------------------------------------------

    /// A reference that holds the key `key` only.
    pub fn new_key(key: String) -> (r: Self)
        ensures
            r is Key,
            r.key_view() == Some(key@),
    {
        DBReference::Key(DBReferenceKey { key })
    }

    // GETTERS ----------------------------------------------------------------

    /// The key this reference points at; a document must carry its key.
    pub fn key(&self) -> (r: String)
        requires
            self.key_view() is Some,
        ensures
            Some(r@) == self.key_view(),
    {
        match self {
            DBReference::Key(v) => v.key.clone(),
            DBReference::Document(v) => {
                let key = v.db_key();
                match key {
                    Some(k) => k.clone(),
                    None => unreached(),
                }
            },
        }
    }

    pub fn is_key(&self) -> (r: bool)
        ensures
            r == (*self is Key),
    {
        matches!(self, DBReference::Key(_))
    }

    pub fn is_document(&self) -> (r: bool)
        ensures
            r == (*self is Document),
    {
        matches!(self, DBReference::Document(_))
    }

    /// The document of a reference that holds one.
    pub fn unwrap_document_as_ref(&self) -> (r: &T)
        requires
            *self is Document,
        ensures
            *r == *self->Document_0,
    {
        match self {
            DBReference::Document(v) => v,
            _ => unreached(),
        }
    }

    /// The document of a reference that holds one, to change it in place.
    pub fn unwrap_document_as_mut_ref(&mut self) -> (r: &mut T)
        requires
            *old(self) is Document,
        ensures
            *r == *old(self)->Document_0,
            *final(self) == DBReference::Document(Box::new(*final(r))),
    {
        match self {
            DBReference::Document(v) => v,
            _ => unreached(),
        }
    }

    // METHODS ----------------------------------------------------------------

    /// The document of a reference that holds one.
    pub fn unwrap_document(self) -> (r: Box<T>)
        requires
            self is Document,
        ensures
            r == self->Document_0,
    {
        match self {
            DBReference::Document(v) => v,
            _ => unreached(),
        }
    }
}

/// Normalizing a reference normalizes its document; a document that could be
/// removed only counts as modified, since the reference stays.
impl<T: DBDocument> DBNormalize for DBReference<T> {
    open spec fn normalize_result(&self) -> DBNormalizeResult {
        match self {
            DBReference::Key(_) => DBNormalizeResult::NotModified,
            DBReference::Document(d) => match d.normalize_result() {
                DBNormalizeResult::NotModified => DBNormalizeResult::NotModified,
                _ => DBNormalizeResult::Modified,
            },
        }
    }

    open spec fn normalized(&self) -> Self {
        match self {
            DBReference::Key(_) => *self,
            DBReference::Document(d) => DBReference::Document(Box::new(d.normalized())),
        }
    }

    fn normalize(&mut self) -> (r: DBNormalizeResult) {
        match self {
            DBReference::Key(_) => DBNormalizeResult::NotModified,
            DBReference::Document(document) => {
                let result = document.normalize();
                match result {
                    DBNormalizeResult::NotModified => DBNormalizeResult::NotModified,
                    _ => DBNormalizeResult::Modified,
                }
            },
        }
    }
}

/// Two references are equal when both hold keys and the keys are equal, or
/// both hold documents and the documents have the same key (or none).
pub open spec fn references_equal<T: DBDocument>(a: DBReference<T>, b: DBReference<T>) -> bool {
    match (a, b) {
        (DBReference::Key(x), DBReference::Key(y)) => x.value() == y.value(),
        (DBReference::Document(x), DBReference::Document(y)) => match (x.key_of(), y.key_of()) {
            (Some(k), Some(l)) => k@ == l@,
            (None, None) => true,
            _ => false,
        },
        _ => false,
    }
}

impl<T: DBDocument> PartialEq for DBReference<T> {
    fn eq(&self, other: &Self) -> (r: bool) {
        match self {
            DBReference::Key(a) => match other {
                DBReference::Key(b) => a.key == b.key,
                DBReference::Document(_) => false,
            },
            DBReference::Document(a) => match other {
                DBReference::Key(_) => false,
                DBReference::Document(b) => match (a.db_key(), b.db_key()) {
                    (Some(k), Some(l)) => *k == *l,
                    (None, None) => true,
                    _ => false,
                },
            },
        }
    }
}

impl<T: DBDocument> vstd::std_specs::cmp::PartialEqSpecImpl for DBReference<T> {
    open spec fn obeys_eq_spec() -> bool {
        true
    }

    open spec fn eq_spec(&self, other: &Self) -> bool {
        references_equal(*self, *other)
    }
}

/// A reference to a key maps to the value under its path; a reference to a
/// document maps to its document, read from the next inline variable, which
/// its `LET` step defines.
impl<T: DBDocument> AQLMapping for DBReference<T> {
    open spec fn mapping_text(&self, path: Seq<char>, next_id: nat) -> Seq<char> {
        match self {
            DBReference::Document(d) => d.mapping_text(inline_variable(next_id), next_id + 1),
            DBReference::Key(_) => path,
        }
    }

    open spec fn mapping_next_id(&self, path: Seq<char>, next_id: nat) -> nat {
        match self {
            DBReference::Document(d) => d.mapping_next_id(inline_variable(next_id), next_id + 1),
            DBReference::Key(_) => next_id,
        }
    }

    proof fn lemma_next_id_grows(&self, path: Seq<char>, next_id: nat) {
        if let DBReference::Document(d) = self {
            d.lemma_next_id_grows(inline_variable(next_id), next_id + 1);
        }
    }

    open spec fn lets_text(&self, path: Seq<char>, next_id: nat) -> Seq<char> {
        match self {
            DBReference::Document(d) => " LET "@ + inline_variable(next_id) + " = "@
                + document_lookup(T::collection_name_view(), d.key_of())
                + d.lets_text(inline_variable(next_id), next_id + 1),
            DBReference::Key(_) => Seq::empty(),
        }
    }

    open spec fn lets_next_id(&self, path: Seq<char>, next_id: nat) -> nat {
        match self {
            DBReference::Document(d) => d.lets_next_id(inline_variable(next_id), next_id + 1),
            DBReference::Key(_) => next_id,
        }
    }

    fn include_let_steps<'a>(&self, aql: &mut AqlBuilder<'a>, path: &str, next_id: &mut usize)
        ensures
            *self is Key ==> final(aql).steps() == old(aql).steps(),
            *self is Document ==> {
                &&& final(aql).steps().len() > old(aql).steps().len()
                &&& final(aql).steps()[old(aql).steps().len() as int] is Let
                &&& final(aql).steps()[old(aql).steps().len() as int]->Let_0.variable@
                    == inline_variable(*old(next_id) as nat)
                &&& final(aql).steps()[old(aql).steps().len() as int]->Let_0.expression matches
                    AqlLetKind::Expression(e) && e@ == document_lookup(
                        T::collection_name_view(),
                        self->Document_0.key_of(),
                    )
            },
    {
        if let DBReference::Document(document) = self {
            let ghost before = *aql;
            let ghost n = *next_id as nat;
            proof {
                document.lemma_next_id_grows(inline_variable(n), n + 1);
            }
            let collection_name = T::collection_name();
            let key_json = match document.db_key() {
                Some(k) => json_string(k.as_str()),
                None => String::from_str("null"),
            };
            let parts = ["DOCUMENT(\"", collection_name, "\",", key_json.as_str(), ")"];
            proof {
                reveal_strlit("DOCUMENT(\"");
                reveal_strlit("\",");
                reveal_strlit(")");
                reveal_strlit("null");
                assert(views(parts@) =~= seq![
                    "DOCUMENT(\""@,
                    T::collection_name_view(),
                    "\","@,
                    key_json_text(document.key_of()),
                    ")"@,
                ]);
            }
            let expression = concat(&parts);
            let var_name = get_aql_inline_variable(*next_id);
            *next_id = *next_id + 1;
            let step = AqlLet { variable: var_name.clone(), expression: AqlLetKind::Expression(expression) };
            let ghost added = AqlKind::Let(step);
            aql.let_step(step);
            let ghost middle = *aql;
            document.include_let_steps(aql, var_name.as_str(), next_id);
            proof {
                reveal_strlit(" LET ");
                reveal_strlit(" = ");
                lemma_same_setup_transitive(before, middle, *aql);
                assert(middle.steps()[before.steps().len() as int] == added);
                assert(aql.steps().subrange(0, middle.steps().len() as int)[before.steps().len() as int] == added);
                assert(aql.steps().subrange(0, before.steps().len() as int)
                    =~= middle.steps().subrange(0, before.steps().len() as int));
            }
        } else {
            proof {
                crate::database::aql::builder::lemma_same_setup_reflexive(*aql);
                assert(aql.query_text() + Seq::<char>::empty() =~= aql.query_text());
            }
        }
    }

    fn map_to_json(&self, buffer: &mut String, path: &str, next_id: &mut usize) {
        match self {
            DBReference::Document(document) => {
                proof {
                    document.lemma_next_id_grows(inline_variable(*next_id as nat), *next_id as nat + 1);
                }
                let var_name = get_aql_inline_variable(*next_id);
                *next_id = *next_id + 1;
                document.map_to_json(buffer, var_name.as_str(), next_id);
            },
            DBReference::Key(_) => {
                buffer.append(path);
            },
        }
    }
}

} // verus!
