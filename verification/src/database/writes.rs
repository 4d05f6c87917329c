//! How failed requests to the database are retried: write-write conflicts are
//! sent again, and an insert whose generated key is taken gets a new key.

use vstd::prelude::*;
use crate::text::{contains_text, str_contains};
use crate::database::aql::OverwriteMode;

verus! {

/// The error number ArangoDB gives a write-write conflict.
pub const ERROR_ARANGO_CONFLICT: u16 = 1200;
/// The error number ArangoDB gives a violated unique constraint.
pub const ERROR_ARANGO_UNIQUE_CONSTRAINT_VIOLATED: u16 = 1210;
/// How many times an insert that ignores its result tries a key.
pub const MAX_INSERT_RETRIES: usize = 5;

/// A request to the database that failed.
#[derive(Debug, Clone, PartialEq, Eq)]
pub enum DBRequestError {
    /// An error that ArangoDB reported, with its number and its message.
    Arango { error_num: u16, message: String },
    /// Any other failure: the connection, or the decoding of the answer.
    Other,
}

/// Whether a failed request is sent again: only a write-write conflict is.
pub open spec fn is_retryable(error: DBRequestError) -> bool {
    error matches DBRequestError::Arango { error_num, .. } && error_num == ERROR_ARANGO_CONFLICT
}

/// Whether an insert failed because its key is taken: a violated unique
/// constraint whose message names `_key`.
pub open spec fn is_key_conflict(error: DBRequestError) -> bool {
    error matches DBRequestError::Arango { error_num, message }
        && error_num == ERROR_ARANGO_UNIQUE_CONSTRAINT_VIOLATED
        && contains_text(message@, "_key"@)
}

/// `Ok(())` when the failed request is to be sent again (a write-write
/// conflict), else the error itself.
pub fn check_client_error_to_retry(error: DBRequestError) -> (r: Result<(), DBRequestError>)
    ensures
        r is Ok <==> is_retryable(error),
        r matches Err(e) ==> e == error,
{
    match &error {
        DBRequestError::Arango { error_num, .. } => {
            if *error_num == ERROR_ARANGO_CONFLICT {
                return Ok(());
            }
        },
        DBRequestError::Other => {},
    }
    Err(error)
}

/// Whether the failure is a taken key.
pub fn key_conflict(error: &DBRequestError) -> (r: bool)
    ensures
        r == is_key_conflict(*error),
{
    match error {
        DBRequestError::Arango { error_num, message } => {
            *error_num == ERROR_ARANGO_UNIQUE_CONSTRAINT_VIOLATED && str_contains(message.as_str(), "_key")
        },
        DBRequestError::Other => false,
    }
}

/// What to do after a failed write.
#[derive(Debug, Clone, PartialEq, Eq)]
pub enum WriteStep {
    /// Send the write again as it is.
    Retry,
    /// Give the document a new key, then send the write again.
    RetryWithNewKey,
    /// Stop with this error.
    Fail(DBRequestError),
}

/// The number of key retries and the step after a failed write, for a write
/// that takes a new key on a key conflict when `new_key` holds, at most
/// `limit` keys in all when there is a limit, with `retries` keys retried
/// so far (they are counted only under a limit).
pub open spec fn write_step_of(new_key: bool, limit: Option<usize>, retries: nat, error: DBRequestError) -> (
    nat,
    WriteStep,
) {
    if new_key && is_key_conflict(error) {
        match limit {
            Some(l) => if retries + 1 >= l {
                (retries, WriteStep::Fail(error))
            } else {
                (retries + 1, WriteStep::RetryWithNewKey)
            },
            None => (retries, WriteStep::RetryWithNewKey),
        }
    } else if is_retryable(error) {
        (retries, WriteStep::Retry)
    } else {
        (retries, WriteStep::Fail(error))
    }
}

/// The retries of one write of a document.
pub struct WriteRetries {
    new_key_on_conflict: bool,
    key_limit: Option<usize>,
    key_retries: usize,
}

impl WriteRetries {
    /// Whether a key conflict gives the document a new key.
    pub closed spec fn new_key(&self) -> bool {
        self.new_key_on_conflict
    }

    /// How many keys the write may try in all, if it is limited.
    pub closed spec fn limit(&self) -> Option<usize> {
        self.key_limit
    }

    /// How many new keys the write has taken so far, when it is limited.
    pub closed spec fn retries(&self) -> nat {
        self.key_retries as nat
    }

    #[verifier::type_invariant]
    closed spec fn below_limit(&self) -> bool {
        self.key_limit matches Some(l) ==> self.key_retries < l
    }

    /// The retries of an insert that returns the new document: a taken key is
    /// replaced, as often as needed, unless the insert may overwrite.
    pub fn for_insert(overwrite: bool) -> (r: WriteRetries)
        ensures
            r.new_key() == !overwrite,
            r.limit() is None,
            r.retries() == 0,
    {
        WriteRetries { new_key_on_conflict: !overwrite, key_limit: None, key_retries: 0 }
    }

    /// The retries of an insert that ignores its result: a taken key is
    /// replaced, unless the insert may overwrite, and the insert fails at the
    /// `MAX_INSERT_RETRIES`-th taken key.
    pub fn for_insert_and_ignore(overwrite: bool) -> (r: WriteRetries)
        ensures
            r.new_key() == !overwrite,
            r.limit() == Some(MAX_INSERT_RETRIES),
            r.retries() == 0,
    {
        WriteRetries { new_key_on_conflict: !overwrite, key_limit: Some(MAX_INSERT_RETRIES), key_retries: 0 }
    }

    /// The retries of the other writes (updates, upserts, removals) and of
    /// queries: only write-write conflicts are retried.
    pub fn plain() -> (r: WriteRetries)
        ensures
            !r.new_key(),
            r.limit() is None,
            r.retries() == 0,
    {
        WriteRetries { new_key_on_conflict: false, key_limit: None, key_retries: 0 }
    }

    /// Takes the error of a failed write and tells what to do next.
    pub fn on_error(&mut self, error: DBRequestError) -> (r: WriteStep)
        ensures
            (final(self).retries(), r) == write_step_of(
                old(self).new_key(),
                old(self).limit(),
                old(self).retries(),
                error,
            ),
            final(self).new_key() == old(self).new_key(),
            final(self).limit() == old(self).limit(),
    {
        proof {
            use_type_invariant(&*self);
        }
        if self.new_key_on_conflict && key_conflict(&error) {
            match self.key_limit {
                Some(limit) => {
                    let retries = self.key_retries + 1;
                    if retries >= limit {
                        return WriteStep::Fail(error);
                    }
                    self.key_retries = retries;
                },
                None => {},
            }
            return WriteStep::RetryWithNewKey;
        }
        match check_client_error_to_retry(error) {
            Ok(()) => WriteStep::Retry,
            Err(e) => WriteStep::Fail(e),
        }
    }
}

// WRITES OF DOCUMENTS --------------------------------------------------------

/// A write of one document.
#[derive(Debug, Clone, Copy, PartialEq, Eq, Structural)]
pub enum DocumentWrite {
    /// Inserts the document and returns it as stored.
    Insert { overwrite: bool },
    /// Inserts the document and returns its key only.
    InsertAndIgnore { overwrite: bool },
    /// Updates the document and returns it as stored; the revision is
    /// checked only when the document carries one.
    Update { merge_objects: bool, has_rev: bool },
    /// Updates the document and returns nothing.
    UpdateAndIgnore { merge_objects: bool, has_rev: bool },
    /// Inserts the document or updates the stored one, and returns it.
    InsertOrUpdate { merge_objects: bool },
    /// Inserts the document or updates the stored one, and returns its key.
    InsertOrUpdateAndIgnore { merge_objects: bool },
    /// Removes the document and returns it as it was.
    Remove,
    /// Removes the document and returns nothing.
    RemoveAndIgnore,
}

/// The options a write is sent with; `None` leaves the default of the
/// database.
#[derive(Debug, Clone, Copy, PartialEq, Eq, Structural)]
pub struct WriteOptions {
    pub return_new: Option<bool>,
    pub return_old: Option<bool>,
    pub keep_null: Option<bool>,
    pub overwrite: Option<bool>,
    pub overwrite_mode: Option<OverwriteMode>,
    pub merge_objects: Option<bool>,
    pub ignore_revs: Option<bool>,
    pub silent: Option<bool>,
}

/// No option set.
pub open spec fn no_options() -> WriteOptions {
    WriteOptions {
        return_new: None,
        return_old: None,
        keep_null: None,
        overwrite: None,
        overwrite_mode: None,
        merge_objects: None,
        ignore_revs: None,
        silent: None,
    }
}

/// The options of each write: inserts never keep null fields and replace an
/// existing document when they may overwrite; upserts always overwrite by
/// updating; updates ignore revisions when the document has none; the writes
/// that ignore their result ask for nothing back.
pub open spec fn write_options_of(write: DocumentWrite) -> WriteOptions {
    match write {
        DocumentWrite::Insert { overwrite } => WriteOptions {
            return_new: Some(true),
            return_old: Some(false),
            keep_null: Some(false),
            overwrite: Some(overwrite),
            overwrite_mode: Some(OverwriteMode::Replace),
            ..no_options()
        },
        DocumentWrite::InsertAndIgnore { overwrite } => WriteOptions {
            return_new: Some(false),
            return_old: Some(false),
            keep_null: Some(false),
            overwrite: Some(overwrite),
            overwrite_mode: Some(OverwriteMode::Replace),
            ..no_options()
        },
        DocumentWrite::Update { merge_objects, has_rev } => WriteOptions {
            merge_objects: Some(merge_objects),
            keep_null: Some(false),
            return_new: Some(true),
            ignore_revs: Some(!has_rev),
            ..no_options()
        },
        DocumentWrite::UpdateAndIgnore { merge_objects, has_rev } => WriteOptions {
            merge_objects: Some(merge_objects),
            keep_null: Some(false),
            ignore_revs: Some(!has_rev),
            silent: Some(true),
            ..no_options()
        },
        DocumentWrite::InsertOrUpdate { merge_objects } => WriteOptions {
            return_new: Some(true),
            return_old: Some(false),
            overwrite: Some(true),
            overwrite_mode: Some(OverwriteMode::Update),
            keep_null: Some(false),
            merge_objects: Some(merge_objects),
            ..no_options()
        },
        DocumentWrite::InsertOrUpdateAndIgnore { merge_objects } => WriteOptions {
            return_new: Some(false),
            return_old: Some(false),
            overwrite: Some(true),
            overwrite_mode: Some(OverwriteMode::Update),
            keep_null: Some(false),
            merge_objects: Some(merge_objects),
            silent: Some(true),
            ..no_options()
        },
        DocumentWrite::Remove => WriteOptions { return_old: Some(true), silent: Some(false), ..no_options() },
        DocumentWrite::RemoveAndIgnore => WriteOptions {
            return_old: Some(false),
            silent: Some(true),
            ..no_options()
        },
    }
}

/// Which document a write gives back.
#[derive(Debug, Clone, Copy, PartialEq, Eq, Structural)]
pub enum ReturnedDocument {
    /// The document as stored after the write.
    New,
    /// The document as it was before the write.
    Old,
    /// No document.
    Nothing,
}

/// The document each write gives back: the stored one for the inserts,
/// updates and upserts that return it, the removed one for a removal that
/// returns it, none for the writes that ignore their result.
pub open spec fn returned_document_of(write: DocumentWrite) -> ReturnedDocument {
    match write {
        DocumentWrite::Insert { .. } | DocumentWrite::Update { .. } | DocumentWrite::InsertOrUpdate { .. } => {
            ReturnedDocument::New
        },
        DocumentWrite::Remove => ReturnedDocument::Old,
        _ => ReturnedDocument::Nothing,
    }
}

impl DocumentWrite {
    /// Which document the write gives back.
    pub fn returned_document(&self) -> (r: ReturnedDocument)
        ensures
            r == returned_document_of(*self),
    {
        match self {
            DocumentWrite::Insert { .. } | DocumentWrite::Update { .. } | DocumentWrite::InsertOrUpdate { .. } => {
                ReturnedDocument::New
            },
            DocumentWrite::Remove => ReturnedDocument::Old,
            _ => ReturnedDocument::Nothing,
        }
    }

    /// The document the write gives back, from the new and old documents
    /// the database answered.
    pub fn pick_returned<T>(&self, new: Option<T>, old: Option<T>) -> (r: Option<T>)
        ensures
            r == match returned_document_of(*self) {
                ReturnedDocument::New => new,
                ReturnedDocument::Old => old,
                ReturnedDocument::Nothing => None,
            },
    {
        match self.returned_document() {
            ReturnedDocument::New => new,
            ReturnedDocument::Old => old,
            ReturnedDocument::Nothing => None,
        }
    }

    /// Whether the write gives the document a key before it is sent when it
    /// has none: the inserts and upserts do; updates and removals need one.
    pub open spec fn creates_key_spec(&self) -> bool {
        match *self {
            DocumentWrite::Insert { .. } | DocumentWrite::InsertAndIgnore { .. }
            | DocumentWrite::InsertOrUpdate { .. } | DocumentWrite::InsertOrUpdateAndIgnore { .. } => true,
            _ => false,
        }
    }

    /// Whether the write gives the document a key before it is sent when it
    /// has none.
    pub fn creates_key(&self) -> (r: bool)
        ensures
            r == self.creates_key_spec(),
    {
        match self {
            DocumentWrite::Insert { .. } | DocumentWrite::InsertAndIgnore { .. }
            | DocumentWrite::InsertOrUpdate { .. } | DocumentWrite::InsertOrUpdateAndIgnore { .. } => true,
            _ => false,
        }
    }

    /// The options the write is sent with.
    pub fn options(&self) -> (r: WriteOptions)
        ensures
            r == write_options_of(*self),
    {
        let none = WriteOptions {
            return_new: None,
            return_old: None,
            keep_null: None,
            overwrite: None,
            overwrite_mode: None,
            merge_objects: None,
            ignore_revs: None,
            silent: None,
        };
        match *self {
            DocumentWrite::Insert { overwrite } => WriteOptions {
                return_new: Some(true),
                return_old: Some(false),
                keep_null: Some(false),
                overwrite: Some(overwrite),
                overwrite_mode: Some(OverwriteMode::Replace),
                ..none
            },
            DocumentWrite::InsertAndIgnore { overwrite } => WriteOptions {
                return_new: Some(false),
                return_old: Some(false),
                keep_null: Some(false),
                overwrite: Some(overwrite),
                overwrite_mode: Some(OverwriteMode::Replace),
                ..none
            },
            DocumentWrite::Update { merge_objects, has_rev } => WriteOptions {
                merge_objects: Some(merge_objects),
                keep_null: Some(false),
                return_new: Some(true),
                ignore_revs: Some(!has_rev),
                ..none
            },
            DocumentWrite::UpdateAndIgnore { merge_objects, has_rev } => WriteOptions {
                merge_objects: Some(merge_objects),
                keep_null: Some(false),
                ignore_revs: Some(!has_rev),
                silent: Some(true),
                ..none
            },
            DocumentWrite::InsertOrUpdate { merge_objects } => WriteOptions {
                return_new: Some(true),
                return_old: Some(false),
                overwrite: Some(true),
                overwrite_mode: Some(OverwriteMode::Update),
                keep_null: Some(false),
                merge_objects: Some(merge_objects),
                ..none
            },
            DocumentWrite::InsertOrUpdateAndIgnore { merge_objects } => WriteOptions {
                return_new: Some(false),
                return_old: Some(false),
                overwrite: Some(true),
                overwrite_mode: Some(OverwriteMode::Update),
                keep_null: Some(false),
                merge_objects: Some(merge_objects),
                silent: Some(true),
                ..none
            },
            DocumentWrite::Remove => WriteOptions { return_old: Some(true), silent: Some(false), ..none },
            DocumentWrite::RemoveAndIgnore => WriteOptions { return_old: Some(false), silent: Some(true), ..none },
        }
    }

    /// The retries of the write: only inserts that may not overwrite replace
    /// a taken key, and only the one that ignores its result stops after
    /// `MAX_INSERT_RETRIES` keys.
    pub fn retries(&self) -> (r: WriteRetries)
        ensures
            r.retries() == 0,
            r.new_key() == (match *self {
                DocumentWrite::Insert { overwrite } | DocumentWrite::InsertAndIgnore { overwrite } => !overwrite,
                _ => false,
            }),
            r.limit() == (match *self {
                DocumentWrite::InsertAndIgnore { .. } => Some(MAX_INSERT_RETRIES),
                _ => None,
            }),
    {
        match *self {
            DocumentWrite::Insert { overwrite } => WriteRetries::for_insert(overwrite),
            DocumentWrite::InsertAndIgnore { overwrite } => WriteRetries::for_insert_and_ignore(overwrite),
            _ => WriteRetries::plain(),
        }
    }
}

// LAWS -----------------------------------------------------------------------

/// A limited write takes fewer new keys than its limit: at the last allowed
/// key conflict it fails instead of trying another key.
pub proof fn lemma_key_retries_below_limit(
    new_key: bool,
    limit: usize,
    retries: nat,
    error: DBRequestError,
)
    requires
        retries < limit,
    ensures
        write_step_of(new_key, Some(limit), retries, error).1 == WriteStep::RetryWithNewKey
            ==> write_step_of(new_key, Some(limit), retries, error).0 < limit,
{
}

/// Only write-write conflicts and, for inserts that replace taken keys, key
/// conflicts are tried again; every other error ends the write with that
/// very error.
pub proof fn lemma_other_errors_fail(new_key: bool, limit: Option<usize>, retries: nat, error: DBRequestError)
    requires
        !is_retryable(error),
        !(new_key && is_key_conflict(error)),
    ensures
        write_step_of(new_key, limit, retries, error) == (retries, WriteStep::Fail(error)),
{
}


/// The revision of a document is checked on every update that carries one,
/// and ignored only when the document has none; no other write sends the
/// option.
pub proof fn lemma_updates_check_revisions(write: DocumentWrite)
    ensures
        write matches DocumentWrite::Update { has_rev, .. } ==> write_options_of(write).ignore_revs == Some(!has_rev),
        write matches DocumentWrite::UpdateAndIgnore { has_rev, .. } ==> write_options_of(write).ignore_revs == Some(!has_rev),
        write matches DocumentWrite::Update { has_rev: true, .. } ==> write_options_of(write).ignore_revs == Some(false),
        write matches DocumentWrite::UpdateAndIgnore { has_rev: true, .. } ==> write_options_of(write).ignore_revs == Some(false),
        !(write is Update || write is UpdateAndIgnore) ==> write_options_of(write).ignore_revs is None,
{
}

/// A write asks for the new document exactly when it gives the new document
/// back, and for the old one exactly when it gives the old one back.
pub proof fn lemma_options_ask_for_returned_document(write: DocumentWrite)
    ensures
        write_options_of(write).return_new == Some(true) <==> returned_document_of(write) is New,
        write_options_of(write).return_old == Some(true) <==> returned_document_of(write) is Old,
{
}

/// Every write but a removal drops null fields; the writes that ignore their
/// result run silently; inserts replace a document under a taken key when
/// they may overwrite, and upserts always overwrite by updating; the merge
/// of objects is sent for updates and upserts only, as asked.
pub proof fn lemma_write_options_shape(write: DocumentWrite)
    ensures
        !(write is Remove || write is RemoveAndIgnore) ==> write_options_of(write).keep_null == Some(false),
        (write is Remove || write is RemoveAndIgnore) ==> write_options_of(write).keep_null is None,
        (write is UpdateAndIgnore || write is InsertOrUpdateAndIgnore || write is RemoveAndIgnore)
            <==> write_options_of(write).silent == Some(true),
        write matches DocumentWrite::Insert { overwrite } ==> write_options_of(write).overwrite == Some(overwrite)
            && write_options_of(write).overwrite_mode == Some(OverwriteMode::Replace),
        write matches DocumentWrite::InsertAndIgnore { overwrite } ==> write_options_of(write).overwrite == Some(overwrite)
            && write_options_of(write).overwrite_mode == Some(OverwriteMode::Replace),
        (write is InsertOrUpdate || write is InsertOrUpdateAndIgnore) ==> write_options_of(write).overwrite == Some(true)
            && write_options_of(write).overwrite_mode == Some(OverwriteMode::Update),
        (write is Update || write is UpdateAndIgnore || write is Remove || write is RemoveAndIgnore)
            ==> write_options_of(write).overwrite is None && write_options_of(write).overwrite_mode is None,
        write matches DocumentWrite::Update { merge_objects, .. } ==> write_options_of(write).merge_objects == Some(merge_objects),
        write matches DocumentWrite::UpdateAndIgnore { merge_objects, .. } ==> write_options_of(write).merge_objects == Some(merge_objects),
        write matches DocumentWrite::InsertOrUpdate { merge_objects } ==> write_options_of(write).merge_objects == Some(merge_objects),
        write matches DocumentWrite::InsertOrUpdateAndIgnore { merge_objects } ==> write_options_of(write).merge_objects == Some(merge_objects),
        (write is Insert || write is InsertAndIgnore || write is Remove || write is RemoveAndIgnore)
            ==> write_options_of(write).merge_objects is None,
{
}

} // verus!
