//! The cached copy of the configuration document, reloaded once it expires.

use vstd::prelude::*;
use crate::text::{concat, concat_all, views};
use crate::database::aql::{AqlBuilder, AqlReturn};
use crate::database::aql::json::{json_string, json_string_text};
use crate::database::collections::{collection_name, CollectionKind};
use crate::database::config::ConfigDocument;

verus! {

/// The configuration document a node keeps, and until when it may be used
/// without reloading it; times are milliseconds on a clock that never goes
/// back.
#[derive(Debug)]
pub struct ConfigCollectionCache<D> {
    pub document: D,
    /// Until when the document may be used; `None` once it must be reloaded.
    pub expiration: Option<u64>,
}

impl<D> ConfigCollectionCache<D> {
    /// Whether the cached document may be used at `now` without reloading.
    pub open spec fn fresh_at(&self, now: u64) -> bool {
        match self.expiration {
            Some(e) => now <= e,
            None => false,
        }
    }

    /// A cache holding `document`, which must be reloaded on its first use.
    pub fn new(document: D) -> (r: Self)
        ensures
            r.document == document,
            forall|now: u64| !r.fresh_at(now),
    {
        ConfigCollectionCache { document, expiration: None }
    }

    /// Whether the document must be reloaded at `now`.
    pub fn needs_reload(&self, now: u64) -> (r: bool)
        ensures
            r == !self.fresh_at(now),
    {
        match self.expiration {
            Some(e) => now > e,
            None => true,
        }
    }

    /// Keeps `document`, loaded at `now`, for `cache_expiration` seconds.
    pub fn store(&mut self, document: D, now: u64, cache_expiration: u64)
        requires
            now + cache_expiration * 1000 <= u64::MAX,
        ensures
            final(self).document == document,
            final(self).expiration == Some((now + cache_expiration * 1000) as u64),
            forall|t: u64| final(self).fresh_at(t) <==> t <= now + cache_expiration * 1000,
    {
        assert(cache_expiration * 1000 <= u64::MAX) by (nonlinear_arith)
            requires
                now + cache_expiration * 1000 <= u64::MAX,
                now >= 0,
        ;
        self.document = document;
        self.expiration = Some(now + cache_expiration * 1000);
    }
}

impl ConfigCollectionCache<ConfigDocument> {
    /// Takes the answer of the lookup of the configuration document, made at
    /// `now`: a found document is kept for the cache expiration it holds; no
    /// document leaves the cache as it was.
    pub fn apply_reload(&mut self, now: u64, answer: Option<ConfigDocument>) -> (r: bool)
        requires
            answer matches Some(d) ==> now + d.database.collections.configuration.cache_expiration * 1000
                <= u64::MAX,
        ensures
            r == answer is Some,
            answer matches Some(d) ==> {
                &&& final(self).document == d
                &&& forall|t: u64| final(self).fresh_at(t) <==> t <= now
                    + d.database.collections.configuration.cache_expiration * 1000
            },
            answer is None ==> *final(self) == *old(self),
    {
        match answer {
            Some(document) => {
                let cache_expiration = document.database.collections.configuration.cache_expiration;
                self.store(document, now, cache_expiration);
                true
            },
            None => false,
        }
    }
}

/// ` RETURN DOCUMENT("Configuration",<key as JSON>)`: the lookup of the
/// configuration document with the key `key`.
pub open spec fn configuration_lookup_text(key: Seq<char>) -> Seq<char> {
    " RETURN "@ + concat_all(
        seq!["DOCUMENT(\""@, collection_name(CollectionKind::Configuration), "\","@, json_string_text(key), ")"@],
    )
}

/// The query that looks up the configuration document with the key `key`;
/// it answers the document, or `null` when there is none.
pub fn configuration_lookup_query<'a>(key: &str) -> (aql: AqlBuilder<'a>)
    ensures
        aql.query_text() == configuration_lookup_text(key@),
        aql.variable_count() == 0,
        aql.buildable(),
{
    let name = CollectionKind::Configuration.name();
    let key_json = json_string(key);
    let parts = ["DOCUMENT(\"", name, "\",", key_json.as_str(), ")"];
    proof {
        assert(views(parts@) =~= seq![
            "DOCUMENT(\""@,
            collection_name(CollectionKind::Configuration),
            "\","@,
            json_string_text(key@),
            ")"@,
        ]);
    }
    let expression = concat(&parts);
    let mut aql = AqlBuilder::new_simple();
    aql.return_step(AqlReturn::new_expression(expression));
    proof {
        reveal_strlit(" RETURN ");
        reveal_strlit("");
    }
    aql
}

} // verus!
