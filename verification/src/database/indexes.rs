//! The indexes each collection of the database is created with.

use vstd::prelude::*;
use vstd::string::StringExecFns;
use crate::text::{concat, concat_all};
use crate::database::collections::{has_document_locks, CollectionKind};
use crate::database::documents::{document_field_path, DBDocumentField};

verus! {

/// The index on the node that holds the lock of a document.
pub const DATABASE_MUTEX_INDEX: &'static str = "MutexIndex";
/// The index that removes documents once they expire.
pub const DATABASE_TTL_INDEX: &'static str = "TTLIndex";
/// The index on the participant of a bet.
pub const BET_PARTICIPANT_INDEX: &'static str = "ParticipantAddress";
/// The index on the challenge of a bet.
pub const BET_CHALLENGE_INDEX: &'static str = "ChallengeAddress";
/// The index on the address of an email.
pub const EMAIL_INDEX: &'static str = "Email";
/// The index on the address of an authentication.
pub const AUTHORIZATION_ADDRESS_INDEX: &'static str = "AuthorizationAddress";

/// The stored name of the field that tells when a document expires.
pub const EXPIRATION_FIELD: &'static str = "X";
/// The stored name of the participant of a bet.
pub const BET_PARTICIPANT_FIELD: &'static str = "P";
/// The stored name of the challenge of a bet.
pub const BET_CHALLENGE_FIELD: &'static str = "C";
/// The stored name of the address of an authentication.
pub const AUTHENTICATION_ADDRESS_FIELD: &'static str = "A";
/// The stored name of the address of an email.
pub const EMAIL_FIELD: &'static str = "E";

/// How an index keeps its entries.
#[derive(Debug, Clone, Copy, PartialEq, Eq, Structural)]
pub enum IndexSettings {
    /// A sorted index kept on disk.
    Persistent { unique: bool, sparse: bool, deduplicate: bool },
    /// An index that removes a document `expire_after` seconds after the
    /// time stored in the indexed field.
    Ttl { expire_after: u32 },
}

/// An index to create on a collection.
pub struct IndexDefinition {
    pub name: &'static str,
    pub fields: Vec<String>,
    pub settings: IndexSettings,
}

/// An index as a name, the paths of its fields and its settings.
pub type IndexModel = (Seq<char>, Seq<Seq<char>>, IndexSettings);

impl IndexDefinition {
    /// The name, field paths and settings of this index.
    pub open spec fn model(&self) -> IndexModel {
        (self.name@, self.fields@.map_values(|f: String| f@), self.settings)
    }
}

/// The settings of an index that neither forbids duplicates nor indexes
/// documents without the field.
pub open spec fn sparse_index() -> IndexSettings {
    IndexSettings::Persistent { unique: false, sparse: true, deduplicate: false }
}

/// The settings of an index that forbids two documents with the same value.
pub open spec fn unique_index() -> IndexSettings {
    IndexSettings::Persistent { unique: true, sparse: false, deduplicate: false }
}

/// The index on `<lock field>.<node_path>`, where `node_path` names the node
/// inside the lock field.
pub open spec fn mutex_index(node_path: Seq<char>) -> IndexModel {
    (
        DATABASE_MUTEX_INDEX@,
        seq![concat_all(seq![document_field_path(DBDocumentField::Mutex), "."@, node_path])],
        sparse_index(),
    )
}

/// The index that removes documents when their expiration time passes.
pub open spec fn ttl_index() -> IndexModel {
    (DATABASE_TTL_INDEX@, seq![EXPIRATION_FIELD@], IndexSettings::Ttl { expire_after: 0 })
}

/// The indexes a collection is created with, in the order they are created.
pub open spec fn collection_indexes_spec(kind: CollectionKind, node_path: Seq<char>) -> Seq<IndexModel> {
    match kind {
        CollectionKind::Configuration => seq![],
        CollectionKind::Mutexes => seq![mutex_index(node_path)],
        CollectionKind::Challenges => seq![mutex_index(node_path), ttl_index()],
        CollectionKind::Participants => seq![mutex_index(node_path)],
        CollectionKind::Bets => seq![
            mutex_index(node_path),
            (BET_PARTICIPANT_INDEX@, seq![BET_PARTICIPANT_FIELD@], sparse_index()),
            (BET_CHALLENGE_INDEX@, seq![BET_CHALLENGE_FIELD@], sparse_index()),
            ttl_index(),
        ],
        CollectionKind::Signatures => seq![ttl_index()],
        CollectionKind::Authentications => seq![
            ttl_index(),
            (AUTHORIZATION_ADDRESS_INDEX@, seq![AUTHENTICATION_ADDRESS_FIELD@], unique_index()),
        ],
        CollectionKind::Emails => seq![(EMAIL_INDEX@, seq![EMAIL_FIELD@], unique_index())],
    }
}

/// The models of a list of index definitions.
pub open spec fn index_models(indexes: Seq<IndexDefinition>) -> Seq<IndexModel> {
    indexes.map_values(|i: IndexDefinition| i.model())
}

fn single_field_index(name: &'static str, field: &str, settings: IndexSettings) -> (r: IndexDefinition)
    ensures
        r.model() == (name@, seq![field@], settings),
{
    let fields = vec![String::from_str(field)];
    let r = IndexDefinition { name, fields, settings };
    assert(r.fields@.map_values(|f: String| f@) =~= seq![field@]);
    r
}

fn new_mutex_index(node_path: &str) -> (r: IndexDefinition)
    ensures
        r.model() == mutex_index(node_path@),
{
    let lock_field = DBDocumentField::Mutex.path();
    let parts = [lock_field, ".", node_path];
    proof {
        reveal_strlit(".");
        assert(crate::text::views(parts@) =~= seq![document_field_path(DBDocumentField::Mutex), "."@, node_path@]);
    }
    let path = concat(&parts);
    single_field_index(
        DATABASE_MUTEX_INDEX,
        path.as_str(),
        IndexSettings::Persistent { unique: false, sparse: true, deduplicate: false },
    )
}

fn new_ttl_index() -> (r: IndexDefinition)
    ensures
        r.model() == ttl_index(),
{
    single_field_index(DATABASE_TTL_INDEX, EXPIRATION_FIELD, IndexSettings::Ttl { expire_after: 0 })
}

/// The indexes to create on the collection `kind`, in order; `node_path` is
/// the name, inside the lock field of a document, of the node holding it.
pub fn collection_indexes(kind: CollectionKind, node_path: &str) -> (r: Vec<IndexDefinition>)
    ensures
        index_models(r@) == collection_indexes_spec(kind, node_path@),
{
    let sparse = IndexSettings::Persistent { unique: false, sparse: true, deduplicate: false };
    let unique = IndexSettings::Persistent { unique: true, sparse: false, deduplicate: false };
    let r = match kind {
        CollectionKind::Configuration => Vec::new(),
        CollectionKind::Mutexes => vec![new_mutex_index(node_path)],
        CollectionKind::Challenges => vec![new_mutex_index(node_path), new_ttl_index()],
        CollectionKind::Participants => vec![new_mutex_index(node_path)],
        CollectionKind::Bets => vec![
            new_mutex_index(node_path),
            single_field_index(BET_PARTICIPANT_INDEX, BET_PARTICIPANT_FIELD, sparse),
            single_field_index(BET_CHALLENGE_INDEX, BET_CHALLENGE_FIELD, sparse),
            new_ttl_index(),
        ],
        CollectionKind::Signatures => vec![new_ttl_index()],
        CollectionKind::Authentications => vec![
            new_ttl_index(),
            single_field_index(AUTHORIZATION_ADDRESS_INDEX, AUTHENTICATION_ADDRESS_FIELD, unique),
        ],
        CollectionKind::Emails => vec![single_field_index(EMAIL_INDEX, EMAIL_FIELD, unique)],
    };
    assert(index_models(r@) =~= collection_indexes_spec(kind, node_path@));
    r
}

/// A collection is created with the index on the node holding the lock of a
/// document exactly when its documents are locked, and then that index comes
/// first.
pub proof fn lemma_lock_index_iff_locked_documents(kind: CollectionKind, node_path: Seq<char>)
    ensures
        has_document_locks(kind) <==> collection_indexes_spec(kind, node_path).contains(mutex_index(node_path)),
        has_document_locks(kind) ==> collection_indexes_spec(kind, node_path)[0] == mutex_index(node_path),
{
    reveal_strlit("MutexIndex");
    reveal_strlit("TTLIndex");
    reveal_strlit("ParticipantAddress");
    reveal_strlit("ChallengeAddress");
    reveal_strlit("AuthorizationAddress");
    reveal_strlit("Email");
    let indexes = collection_indexes_spec(kind, node_path);
    let m = mutex_index(node_path);
    if has_document_locks(kind) {
        assert(indexes[0] == m);
    } else {
        assert(DATABASE_MUTEX_INDEX@.len() == 10);
        assert(DATABASE_TTL_INDEX@.len() == 8);
        assert(AUTHORIZATION_ADDRESS_INDEX@.len() == 20);
        assert(EMAIL_INDEX@.len() == 5);
        assert forall|i: int| 0 <= i < indexes.len() implies indexes[i] != m by {
            assert(indexes[i].0.len() != DATABASE_MUTEX_INDEX@.len());
        }
    }
}


/// The documents identified by an address are stored once per address:
/// emails get a unique index on their address `E`, authentications on
/// theirs, `A`, both non-sparse so that a document without an address is
/// indexed too; no other index forbids duplicates.
pub proof fn lemma_addresses_are_unique(kind: CollectionKind, node_path: Seq<char>)
    ensures
        kind is Emails ==> collection_indexes_spec(kind, node_path).contains(
            (EMAIL_INDEX@, seq![EMAIL_FIELD@], IndexSettings::Persistent { unique: true, sparse: false, deduplicate: false }),
        ),
        kind is Authentications ==> collection_indexes_spec(kind, node_path).contains(
            (
                AUTHORIZATION_ADDRESS_INDEX@,
                seq![AUTHENTICATION_ADDRESS_FIELD@],
                IndexSettings::Persistent { unique: true, sparse: false, deduplicate: false },
            ),
        ),
        forall|i: int| 0 <= i < collection_indexes_spec(kind, node_path).len()
            && (#[trigger] collection_indexes_spec(kind, node_path)[i]).2 is Persistent
            && collection_indexes_spec(kind, node_path)[i].2->unique
            ==> (kind is Emails && collection_indexes_spec(kind, node_path)[i].1 == seq![EMAIL_FIELD@])
                || (kind is Authentications && collection_indexes_spec(kind, node_path)[i].1 == seq![AUTHENTICATION_ADDRESS_FIELD@]),
{
    let indexes = collection_indexes_spec(kind, node_path);
    match kind {
        CollectionKind::Emails => {
            assert(indexes[0] == (EMAIL_INDEX@, seq![EMAIL_FIELD@], IndexSettings::Persistent { unique: true, sparse: false, deduplicate: false }));
        },
        CollectionKind::Authentications => {
            assert(indexes[1] == (
                AUTHORIZATION_ADDRESS_INDEX@,
                seq![AUTHENTICATION_ADDRESS_FIELD@],
                IndexSettings::Persistent { unique: true, sparse: false, deduplicate: false },
            ));
        },
        _ => {},
    }
}

/// Every persistent index keeps duplicates out only when it is unique, and
/// then indexes every document; the other persistent indexes skip the
/// documents without the field. None deduplicates.
pub proof fn lemma_persistent_index_settings(kind: CollectionKind, node_path: Seq<char>)
    ensures
        forall|i: int| 0 <= i < collection_indexes_spec(kind, node_path).len()
            && (#[trigger] collection_indexes_spec(kind, node_path)[i]).2 is Persistent
            ==> collection_indexes_spec(kind, node_path)[i].2->sparse == !collection_indexes_spec(kind, node_path)[i].2->unique
                && !collection_indexes_spec(kind, node_path)[i].2->deduplicate,
{
}

/// The collections whose documents expire (challenges, bets, signatures and
/// authentications) are created with the index that removes a document as
/// soon as the time in its field `X` passes; the others are not.
pub proof fn lemma_expiring_collections(kind: CollectionKind, node_path: Seq<char>)
    ensures
        (kind is Challenges || kind is Bets || kind is Signatures || kind is Authentications)
            <==> collection_indexes_spec(kind, node_path).contains(
                (DATABASE_TTL_INDEX@, seq![EXPIRATION_FIELD@], IndexSettings::Ttl { expire_after: 0 }),
            ),
        forall|i: int| 0 <= i < collection_indexes_spec(kind, node_path).len()
            && (#[trigger] collection_indexes_spec(kind, node_path)[i]).2 is Ttl
            ==> collection_indexes_spec(kind, node_path)[i].2->expire_after == 0 && collection_indexes_spec(kind, node_path)[i].1 == seq![EXPIRATION_FIELD@],
{
    let indexes = collection_indexes_spec(kind, node_path);
    let ttl = (DATABASE_TTL_INDEX@, seq![EXPIRATION_FIELD@], IndexSettings::Ttl { expire_after: 0 });
    match kind {
        CollectionKind::Challenges => { assert(indexes[1] == ttl); },
        CollectionKind::Bets => { assert(indexes[3] == ttl); },
        CollectionKind::Signatures => { assert(indexes[0] == ttl); },
        CollectionKind::Authentications => { assert(indexes[0] == ttl); },
        _ => {
            assert forall|i: int| 0 <= i < indexes.len() implies indexes[i] != ttl by {};
        },
    }
}

} // verus!
