//! The steps an AQL query is made of and the text each of them adds to a query.

use vstd::prelude::*;
use vstd::string::StringExecFns;
use crate::text::{bool_text, decimal, push_bool, push_decimal};
use crate::database::aql::json::{overwrite_mode_json, overwrite_mode_text, OverwriteMode};

verus! {

/// `RETURN [DISTINCT] <expression>`.
pub struct AqlReturn {
    pub distinct: bool,
    pub expression: String,
}

impl AqlReturn {
    /// The text this step adds to a query.
    pub open spec fn query_text(&self) -> Seq<char> {
        " RETURN "@ + (if self.distinct { "DISTINCT "@ } else { Seq::empty() }) + self.expression@
    }

    /// Returns the current document (`i`).
    pub fn new_document() -> (r: AqlReturn)
        ensures
            !r.distinct,
            r.expression@ == crate::database::aql::AQL_DOCUMENT_ID@,
    {
        AqlReturn { distinct: false, expression: String::from_str(crate::database::aql::AQL_DOCUMENT_ID) }
    }

    /// Returns the document after a write (`NEW`).
    pub fn new_updated() -> (r: AqlReturn)
        ensures
            !r.distinct,
            r.expression@ == crate::database::aql::AQL_NEW_ID@,
    {
        AqlReturn { distinct: false, expression: String::from_str(crate::database::aql::AQL_NEW_ID) }
    }

    /// Returns the document before a write (`OLD`).
    pub fn new_old() -> (r: AqlReturn)
        ensures
            !r.distinct,
            r.expression@ == crate::database::aql::AQL_OLD_ID@,
    {
        AqlReturn { distinct: false, expression: String::from_str(crate::database::aql::AQL_OLD_ID) }
    }

    /// Returns an arbitrary expression.
    pub fn new_expression(expression: String) -> (r: AqlReturn)
        ensures
            !r.distinct,
            r.expression@ == expression@,
    {
        AqlReturn { distinct: false, expression }
    }

    /// Appends this step to `query`.
    pub fn build_query(&self, query: &mut String)
        ensures
            final(query)@ == old(query)@ + self.query_text(),
    {
        query.append(" RETURN ");
        if self.distinct {
            query.append("DISTINCT ");
        }
        query.append(self.expression.as_str());
    }
}

/// One sort criterion: `<expression> ASC|DESC`.
pub struct AqlSort {
    pub is_descending: bool,
    pub expression: String,
}

impl AqlSort {
    /// The text of this criterion.
    pub open spec fn query_text(&self) -> Seq<char> {
        self.expression@ + (if self.is_descending { " DESC"@ } else { " ASC"@ })
    }

    /// Appends this criterion to `query`.
    pub fn build_query(&self, query: &mut String)
        ensures
            final(query)@ == old(query)@ + self.query_text(),
    {
        query.append(self.expression.as_str());
        if self.is_descending {
            query.append(" DESC");
        } else {
            query.append(" ASC");
        }
    }
}

/// `LIMIT [<offset>, ]<count>`.
#[derive(Clone, Copy)]
pub struct AqlLimit {
    pub offset: Option<u64>,
    pub count: u64,
}

impl AqlLimit {
    /// The text this step adds to a query.
    pub open spec fn query_text(&self) -> Seq<char> {
        " LIMIT "@ + (match self.offset {
            Some(offset) => decimal(offset as nat) + ", "@,
            None => Seq::empty(),
        }) + decimal(self.count as nat)
    }

    /// Appends this step to `query`.
    pub fn build_query(&self, query: &mut String)
        ensures
            final(query)@ == old(query)@ + self.query_text(),
    {
        query.append(" LIMIT ");
        if let Some(offset) = self.offset {
            push_decimal(query, offset);
            query.append(", ");
        }
        push_decimal(query, self.count);
    }
}

/// `REMOVE <variable> IN <collection> OPTIONS { .. }`.
pub struct AqlRemove<'a> {
    pub variable: String,
    pub collection: &'a str,
    pub ignore_revs: bool,
    pub ignore_errors: bool,
}

impl<'a> AqlRemove<'a> {
    /// The text this step adds to a query.
    pub open spec fn query_text(&self) -> Seq<char> {
        " REMOVE "@ + self.variable@ + " IN "@ + self.collection@
            + " OPTIONS { ignoreRevs: "@ + bool_text(self.ignore_revs)
            + ", ignoreErrors: "@ + bool_text(self.ignore_errors) + " }"@
    }

    /// Removes `variable` from `collection`, keeping revisions and ignoring errors.
    pub fn new(variable: String, collection: &'a str) -> (r: Self)
        ensures
            r.variable@ == variable@,
            r.collection == collection,
            !r.ignore_revs,
            r.ignore_errors,
    {
        AqlRemove { variable, collection, ignore_revs: false, ignore_errors: true }
    }

    /// Removes the current document (`i`) from `collection`.
    pub fn new_document(collection: &'a str) -> (r: Self)
        ensures
            r.variable@ == crate::database::aql::AQL_DOCUMENT_ID@,
            r.collection == collection,
            !r.ignore_revs,
            r.ignore_errors,
    {
        Self::new(String::from_str(crate::database::aql::AQL_DOCUMENT_ID), collection)
    }

    pub fn apply_ignore_revs(self, ignore_revs: bool) -> (r: Self)
        ensures
            r == (AqlRemove { ignore_revs, ..self }),
    {
        let mut s = self;
        s.ignore_revs = ignore_revs;
        s
    }

    pub fn apply_ignore_errors(self, ignore_errors: bool) -> (r: Self)
        ensures
            r == (AqlRemove { ignore_errors, ..self }),
    {
        let mut s = self;
        s.ignore_errors = ignore_errors;
        s
    }

    /// Appends this step to `query`.
    pub fn build_query(&self, query: &mut String)
        ensures
            final(query)@ == old(query)@ + self.query_text(),
    {
        query.append(" REMOVE ");
        query.append(self.variable.as_str());
        query.append(" IN ");
        query.append(self.collection);
        query.append(" OPTIONS { ignoreRevs: ");
        push_bool(query, self.ignore_revs);
        query.append(", ignoreErrors: ");
        push_bool(query, self.ignore_errors);
        query.append(" }");
    }
}


/// `UPDATE <variable> WITH <expression> IN <collection> OPTIONS { .. }`.
pub struct AqlUpdate<'a> {
    pub variable: String,
    pub collection: &'a str,
    pub expression: String,
    pub ignore_revs: bool,
    pub keep_null: bool,
    pub merge_objects: bool,
    pub ignore_errors: bool,
}

impl<'a> AqlUpdate<'a> {
    /// The text this step adds to a query.
    pub open spec fn query_text(&self) -> Seq<char> {
        self.target_text() + self.options_text()
    }

    /// `UPDATE <variable> WITH <expression> IN <collection>`.
    pub open spec fn target_text(&self) -> Seq<char> {
        " UPDATE "@ + self.variable@ + " WITH "@ + self.expression@ + " IN "@ + self.collection@
    }

    /// ` OPTIONS { .. }` of an update.
    pub open spec fn options_text(&self) -> Seq<char> {
        " OPTIONS { ignoreRevs: "@ + bool_text(self.ignore_revs)
            + ", keepNull: "@ + bool_text(self.keep_null)
            + ", mergeObjects: "@ + bool_text(self.merge_objects)
            + ", ignoreErrors: "@ + bool_text(self.ignore_errors) + " }"@
    }

    /// Updates `variable` in `collection` with `expression`, merging objects.
    pub fn new(variable: String, collection: &'a str, expression: String) -> (r: Self)
        ensures
            r.variable@ == variable@,
            r.collection == collection,
            r.expression@ == expression@,
            !r.ignore_revs,
            !r.keep_null,
            r.merge_objects,
            !r.ignore_errors,
    {
        AqlUpdate {
            variable,
            collection,
            expression,
            ignore_revs: false,
            keep_null: false,
            merge_objects: true,
            ignore_errors: false,
        }
    }

    /// Updates the current document (`i`).
    pub fn new_document(collection: &'a str, expression: String) -> (r: Self)
        ensures
            r.variable@ == crate::database::aql::AQL_DOCUMENT_ID@,
            r.collection == collection,
            r.expression@ == expression@,
            !r.ignore_revs,
            !r.keep_null,
            r.merge_objects,
            !r.ignore_errors,
    {
        Self::new(String::from_str(crate::database::aql::AQL_DOCUMENT_ID), collection, expression)
    }

    pub fn apply_ignore_revs(self, ignore_revs: bool) -> (r: Self)
        ensures
            r == (AqlUpdate { ignore_revs, ..self }),
    {
        let mut s = self;
        s.ignore_revs = ignore_revs;
        s
    }

    pub fn apply_keep_null(self, keep_null: bool) -> (r: Self)
        ensures
            r == (AqlUpdate { keep_null, ..self }),
    {
        let mut s = self;
        s.keep_null = keep_null;
        s
    }

    pub fn apply_merge_objects(self, merge_objects: bool) -> (r: Self)
        ensures
            r == (AqlUpdate { merge_objects, ..self }),
    {
        let mut s = self;
        s.merge_objects = merge_objects;
        s
    }

    pub fn apply_ignore_errors(self, ignore_errors: bool) -> (r: Self)
        ensures
            r == (AqlUpdate { ignore_errors, ..self }),
    {
        let mut s = self;
        s.ignore_errors = ignore_errors;
        s
    }

    fn build_target(&self, query: &mut String)
        ensures
            final(query)@ == old(query)@ + self.target_text(),
    {
        query.append(" UPDATE ");
        query.append(self.variable.as_str());
        query.append(" WITH ");
        query.append(self.expression.as_str());
        query.append(" IN ");
        query.append(self.collection);
    }

    fn build_options(&self, query: &mut String)
        ensures
            final(query)@ == old(query)@ + self.options_text(),
    {
        query.append(" OPTIONS { ignoreRevs: ");
        push_bool(query, self.ignore_revs);
        query.append(", keepNull: ");
        push_bool(query, self.keep_null);
        query.append(", mergeObjects: ");
        push_bool(query, self.merge_objects);
        query.append(", ignoreErrors: ");
        push_bool(query, self.ignore_errors);
        query.append(" }");
    }

    /// Appends this step to `query`.
    pub fn build_query(&self, query: &mut String)
        ensures
            final(query)@ == old(query)@ + self.query_text(),
    {
        let ghost start = query@;
        self.build_target(query);
        self.build_options(query);
        assert(query@ =~= start + self.query_text());
    }
}

/// `REPLACE <variable> WITH <expression> IN <collection> OPTIONS { .. }`.
pub struct AqlReplace<'a> {
    pub variable: String,
    pub collection: &'a str,
    pub expression: String,
    pub ignore_revs: bool,
    pub ignore_errors: bool,
}

impl<'a> AqlReplace<'a> {
    /// The text this step adds to a query.
    pub open spec fn query_text(&self) -> Seq<char> {
        " REPLACE "@ + self.variable@ + " WITH "@ + self.expression@ + " IN "@ + self.collection@
            + " OPTIONS { ignoreRevs: "@ + bool_text(self.ignore_revs)
            + ", ignoreErrors: "@ + bool_text(self.ignore_errors) + " }"@
    }

    /// Replaces `variable` in `collection` with `expression`.
    pub fn new(variable: String, collection: &'a str, expression: String) -> (r: Self)
        ensures
            r.variable@ == variable@,
            r.collection == collection,
            r.expression@ == expression@,
            !r.ignore_revs,
            !r.ignore_errors,
    {
        AqlReplace { variable, collection, expression, ignore_revs: false, ignore_errors: false }
    }

    /// Replaces the current document (`i`).
    pub fn new_document(collection: &'a str, expression: String) -> (r: Self)
        ensures
            r.variable@ == crate::database::aql::AQL_DOCUMENT_ID@,
            r.collection == collection,
            r.expression@ == expression@,
            !r.ignore_revs,
            !r.ignore_errors,
    {
        Self::new(String::from_str(crate::database::aql::AQL_DOCUMENT_ID), collection, expression)
    }

    pub fn apply_ignore_revs(self, ignore_revs: bool) -> (r: Self)
        ensures
            r == (AqlReplace { ignore_revs, ..self }),
    {
        let mut s = self;
        s.ignore_revs = ignore_revs;
        s
    }

    pub fn apply_ignore_errors(self, ignore_errors: bool) -> (r: Self)
        ensures
            r == (AqlReplace { ignore_errors, ..self }),
    {
        let mut s = self;
        s.ignore_errors = ignore_errors;
        s
    }

    /// Appends this step to `query`.
    pub fn build_query(&self, query: &mut String)
        ensures
            final(query)@ == old(query)@ + self.query_text(),
    {
        query.append(" REPLACE ");
        query.append(self.variable.as_str());
        query.append(" WITH ");
        query.append(self.expression.as_str());
        query.append(" IN ");
        query.append(self.collection);
        query.append(" OPTIONS { ignoreRevs: ");
        push_bool(query, self.ignore_revs);
        query.append(", ignoreErrors: ");
        push_bool(query, self.ignore_errors);
        query.append(" }");
    }
}

/// `INSERT <expression> INTO <collection> OPTIONS { .. }`.
pub struct AqlInsert<'a> {
    pub collection: &'a str,
    pub expression: String,
    pub overwrite_mode: OverwriteMode,
    pub keep_null: bool,
    pub merge_objects: bool,
    pub ignore_errors: bool,
}

impl<'a> AqlInsert<'a> {
    /// The text this step adds to a query.
    pub open spec fn query_text(&self) -> Seq<char> {
        " INSERT "@ + self.expression@ + " INTO "@ + self.collection@
            + " OPTIONS { overwriteMode: "@ + overwrite_mode_text(self.overwrite_mode)
            + ", keepNull: "@ + bool_text(self.keep_null)
            + ", mergeObjects: "@ + bool_text(self.merge_objects)
            + ", ignoreErrors: "@ + bool_text(self.ignore_errors) + " }"@
    }

    /// Inserts `expression` into `collection`, replacing a document with the same key.
    pub fn new(collection: &'a str, expression: String) -> (r: Self)
        ensures
            r.collection == collection,
            r.expression@ == expression@,
            r.overwrite_mode == OverwriteMode::Replace,
            !r.keep_null,
            r.merge_objects,
            !r.ignore_errors,
    {
        AqlInsert {
            collection,
            expression,
            overwrite_mode: OverwriteMode::Replace,
            keep_null: false,
            merge_objects: true,
            ignore_errors: false,
        }
    }

    /// Inserts the current document (`i`).
    pub fn new_document(collection: &'a str) -> (r: Self)
        ensures
            r.collection == collection,
            r.expression@ == crate::database::aql::AQL_DOCUMENT_ID@,
            r.overwrite_mode == OverwriteMode::Replace,
            !r.keep_null,
            r.merge_objects,
            !r.ignore_errors,
    {
        Self::new(collection, String::from_str(crate::database::aql::AQL_DOCUMENT_ID))
    }

    pub fn apply_keep_null(self, keep_null: bool) -> (r: Self)
        ensures
            r == (AqlInsert { keep_null, ..self }),
    {
        let mut s = self;
        s.keep_null = keep_null;
        s
    }

    pub fn apply_merge_objects(self, merge_objects: bool) -> (r: Self)
        ensures
            r == (AqlInsert { merge_objects, ..self }),
    {
        let mut s = self;
        s.merge_objects = merge_objects;
        s
    }

    pub fn apply_ignore_errors(self, ignore_errors: bool) -> (r: Self)
        ensures
            r == (AqlInsert { ignore_errors, ..self }),
    {
        let mut s = self;
        s.ignore_errors = ignore_errors;
        s
    }

    /// Appends this step to `query`.
    #[verifier::spinoff_prover]
    #[verifier::rlimit(40)]
    pub fn build_query(&self, query: &mut String)
        ensures
            final(query)@ == old(query)@ + self.query_text(),
    {
        query.append(" INSERT ");
        query.append(self.expression.as_str());
        query.append(" INTO ");
        query.append(self.collection);
        query.append(" OPTIONS { overwriteMode: ");
        let mode = overwrite_mode_json(self.overwrite_mode);
        query.append(mode.as_str());
        query.append(", keepNull: ");
        push_bool(query, self.keep_null);
        query.append(", mergeObjects: ");
        push_bool(query, self.merge_objects);
        query.append(", ignoreErrors: ");
        push_bool(query, self.ignore_errors);
        query.append(" }");
    }
}

/// `UPSERT <lookup> INSERT <insert> UPDATE|REPLACE <update> IN <collection> OPTIONS { .. }`.
pub struct AqlUpsert<'a> {
    pub collection: &'a str,
    pub lookup_expression: String,
    pub insert_expression: String,
    pub update_expression: String,
    pub is_update: bool,
    pub keep_null: bool,
    pub merge_objects: bool,
    pub ignore_errors: bool,
}

impl<'a> AqlUpsert<'a> {
    /// The text this step adds to a query.
    pub open spec fn query_text(&self) -> Seq<char> {
        self.target_text() + self.options_text()
    }

    /// `UPSERT <lookup> INSERT <insert> UPDATE|REPLACE <update> IN <collection>`.
    pub open spec fn target_text(&self) -> Seq<char> {
        " UPSERT "@ + self.lookup_expression@ + " INSERT "@ + self.insert_expression@
            + (if self.is_update { " UPDATE "@ } else { " REPLACE "@ })
            + self.update_expression@ + " IN "@ + self.collection@
    }

    /// ` OPTIONS { .. }` of an upsert.
    pub open spec fn options_text(&self) -> Seq<char> {
        " OPTIONS { keepNull: "@ + bool_text(self.keep_null)
            + ", mergeObjects: "@ + bool_text(self.merge_objects)
            + ", ignoreErrors: "@ + bool_text(self.ignore_errors) + " }"@
    }

    /// An upsert that replaces the document it finds.
    pub fn new_replace(
        collection: &'a str,
        lookup_expression: String,
        insert_expression: String,
        replace_expression: String,
    ) -> (r: Self)
        ensures
            r.collection == collection,
            r.lookup_expression@ == lookup_expression@,
            r.insert_expression@ == insert_expression@,
            r.update_expression@ == replace_expression@,
            !r.is_update,
            !r.keep_null,
            r.merge_objects,
            !r.ignore_errors,
    {
        AqlUpsert {
            collection,
            lookup_expression,
            insert_expression,
            update_expression: replace_expression,
            is_update: false,
            keep_null: false,
            merge_objects: true,
            ignore_errors: false,
        }
    }

    /// An upsert that updates the document it finds.
    pub fn new_update(
        collection: &'a str,
        lookup_expression: String,
        insert_expression: String,
        update_expression: String,
    ) -> (r: Self)
        ensures
            r.collection == collection,
            r.lookup_expression@ == lookup_expression@,
            r.insert_expression@ == insert_expression@,
            r.update_expression@ == update_expression@,
            r.is_update,
            !r.keep_null,
            r.merge_objects,
            !r.ignore_errors,
    {
        AqlUpsert {
            collection,
            lookup_expression,
            insert_expression,
            update_expression,
            is_update: true,
            keep_null: false,
            merge_objects: true,
            ignore_errors: false,
        }
    }

    pub fn apply_keep_null(self, keep_null: bool) -> (r: Self)
        ensures
            r == (AqlUpsert { keep_null, ..self }),
    {
        let mut s = self;
        s.keep_null = keep_null;
        s
    }

    pub fn apply_merge_objects(self, merge_objects: bool) -> (r: Self)
        ensures
            r == (AqlUpsert { merge_objects, ..self }),
    {
        let mut s = self;
        s.merge_objects = merge_objects;
        s
    }

    pub fn apply_ignore_errors(self, ignore_errors: bool) -> (r: Self)
        ensures
            r == (AqlUpsert { ignore_errors, ..self }),
    {
        let mut s = self;
        s.ignore_errors = ignore_errors;
        s
    }

    fn build_target(&self, query: &mut String)
        ensures
            final(query)@ == old(query)@ + self.target_text(),
    {
        query.append(" UPSERT ");
        query.append(self.lookup_expression.as_str());
        query.append(" INSERT ");
        query.append(self.insert_expression.as_str());
        if self.is_update {
            query.append(" UPDATE ");
        } else {
            query.append(" REPLACE ");
        }
        query.append(self.update_expression.as_str());
        query.append(" IN ");
        query.append(self.collection);
    }

    fn build_options(&self, query: &mut String)
        ensures
            final(query)@ == old(query)@ + self.options_text(),
    {
        query.append(" OPTIONS { keepNull: ");
        push_bool(query, self.keep_null);
        query.append(", mergeObjects: ");
        push_bool(query, self.merge_objects);
        query.append(", ignoreErrors: ");
        push_bool(query, self.ignore_errors);
        query.append(" }");
    }

    /// Appends this step to `query`.
    pub fn build_query(&self, query: &mut String)
        ensures
            final(query)@ == old(query)@ + self.query_text(),
    {
        let ghost start = query@;
        self.build_target(query);
        self.build_options(query);
        assert(query@ =~= start + self.query_text());
    }
}

/// The names listed after `KEEP`, separated by commas.
pub open spec fn keep_list_text(keep: Seq<&str>) -> Seq<char>
    decreases keep.len(),
{
    if keep.len() == 0 {
        Seq::empty()
    } else if keep.len() == 1 {
        keep[0]@
    } else {
        keep_list_text(keep.drop_last()) + ","@ + keep.last()@
    }
}

/// `COLLECT <expression> INTO <group> [KEEP ..]` or `COLLECT WITH COUNT INTO <group>`.
pub struct AqlCollect<'a> {
    pub group_variable: String,
    pub expression: Option<String>,
    pub keep: &'a [&'a str],
    pub hash_method: bool,
}

impl<'a> AqlCollect<'a> {
    /// The text this step adds to a query.
    pub open spec fn query_text(&self) -> Seq<char> {
        match self.expression {
            Some(expression) => {
                " COLLECT "@ + expression@ + " INTO "@ + self.group_variable@
                    + (if self.keep@.len() == 0 {
                        Seq::empty()
                    } else {
                        " KEEP "@ + keep_list_text(self.keep@)
                    })
            },
            None => {
                " COLLECT WITH COUNT INTO "@ + self.group_variable@
                    + (if self.hash_method { " OPTIONS { method: \"hash\" }"@ } else { Seq::empty() })
            },
        }
    }

    /// Counts the rows into `group_variable`.
    pub fn new_count(group_variable: String) -> (r: Self)
        ensures
            r.group_variable@ == group_variable@,
            r.expression is None,
            r.keep@.len() == 0,
            !r.hash_method,
    {
        AqlCollect { group_variable, expression: None, keep: &[], hash_method: false }
    }

    /// Groups the rows by `expression` into `group_variable`, keeping the given variables.
    pub fn new_collect_and_keep(
        expression: String,
        group_variable: String,
        keep: &'a [&'a str],
    ) -> (r: Self)
        ensures
            r.group_variable@ == group_variable@,
            r.expression matches Some(e) && e@ == expression@,
            r.keep == keep,
            !r.hash_method,
    {
        AqlCollect { group_variable, expression: Some(expression), keep, hash_method: false }
    }

    pub fn apply_hash_method(self, hash_method: bool) -> (r: Self)
        ensures
            r == (AqlCollect { hash_method, ..self }),
    {
        let mut s = self;
        s.hash_method = hash_method;
        s
    }

    /// Appends this step to `query`.
    pub fn build_query(&self, query: &mut String)
        ensures
            final(query)@ == old(query)@ + self.query_text(),
    {
        match &self.expression {
            Some(expression) => {
                query.append(" COLLECT ");
                query.append(expression.as_str());
                query.append(" INTO ");
                query.append(self.group_variable.as_str());
                if self.keep.len() > 0 {
                    query.append(" KEEP ");
                    let ghost start = query@;
                    query.append(self.keep[0]);
                    let mut i: usize = 1;
                    while i < self.keep.len()
                        invariant
                            1 <= i <= self.keep@.len(),
                            query@ == start + keep_list_text(self.keep@.take(i as int)),
                        decreases self.keep@.len() - i,
                    {
                        proof {
                            assert(self.keep@.take(i as int + 1).drop_last() == self.keep@.take(i as int));
                        }
                        query.append(",");
                        query.append(self.keep[i]);
                        i = i + 1;
                    }
                    proof {
                        assert(self.keep@.take(i as int) == self.keep@);
                    }
                }
            },
            None => {
                query.append(" COLLECT WITH COUNT INTO ");
                query.append(self.group_variable.as_str());
                if self.hash_method {
                    query.append(" OPTIONS { method: \"hash\" }");
                }
            },
        }
    }
}

} // verus!
