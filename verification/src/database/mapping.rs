//! Mapping documents into the JSON a query returns for them.

use vstd::prelude::*;
use vstd::string::StringExecFns;
use crate::text::{decimal, push_decimal};
use crate::database::aql::{AqlBuilder, AQL_MAX_VARIABLES};

verus! {

/// A value that knows how a query returns it: the `LET` steps it needs and
/// the JSON expression that builds it from the variable `path`. Inline
/// variables it needs are numbered from `next_id` on.
pub trait AQLMapping: Sized {
    /// The expression this value maps to under `path`, numbering inline
    /// variables from `next_id`.
    spec fn mapping_text(&self, path: Seq<char>, next_id: nat) -> Seq<char>;

    /// The first inline number left free by the mapping.
    spec fn mapping_next_id(&self, path: Seq<char>, next_id: nat) -> nat;

    /// Mapping never gives back inline numbers.
    proof fn lemma_next_id_grows(&self, path: Seq<char>, next_id: nat)
        ensures
            self.mapping_next_id(path, next_id) >= next_id;

    /// The text of the `LET` steps the mapping needs under `path`, numbering
    /// inline variables from `next_id`.
    spec fn lets_text(&self, path: Seq<char>, next_id: nat) -> Seq<char>;

    /// The inline number that adding those `LET` steps leaves in `next_id`.
    spec fn lets_next_id(&self, path: Seq<char>, next_id: nat) -> nat;

    /// Adds the `LET` steps the mapping needs: the query keeps its head, its
    /// variables, its settings and its steps so far, every step added is a
    /// `LET`, and the text of the query grows by `lets_text`.
    fn include_let_steps<'a>(&self, aql: &mut AqlBuilder<'a>, path: &str, next_id: &mut usize)
        requires
            self.mapping_next_id(path@, *old(next_id) as nat) <= AQL_MAX_VARIABLES,
        ensures
            old(aql).same_setup(&*final(aql)),
            final(aql).steps().len() >= old(aql).steps().len(),
            final(aql).steps().subrange(0, old(aql).steps().len() as int) == old(aql).steps(),
            forall|i: int| old(aql).steps().len() <= i < final(aql).steps().len() ==> #[trigger] final(aql).steps()[i] is Let,
            old(aql).buildable() ==> final(aql).buildable(),
            final(aql).query_text() == old(aql).query_text() + self.lets_text(path@, *old(next_id) as nat),
            *final(next_id) == self.lets_next_id(path@, *old(next_id) as nat);

    /// Appends the mapping of this value under `path` to `buffer`; there are
    /// `AQL_MAX_VARIABLES` inline variables.
    fn map_to_json(&self, buffer: &mut String, path: &str, next_id: &mut usize)
        requires
            self.mapping_next_id(path@, *old(next_id) as nat) <= AQL_MAX_VARIABLES,
        ensures
            final(buffer)@ == old(buffer)@ + self.mapping_text(path@, *old(next_id) as nat),
            *final(next_id) == self.mapping_next_id(path@, *old(next_id) as nat);
}

/// The path of item number `index` of the list at `path`: `<path>[<index>]`.
pub open spec fn item_path(path: Seq<char>, index: nat) -> Seq<char> {
    path + seq!['['] + decimal(index) + seq![']']
}

/// The mappings of the items of a list, each followed by a comma, and the
/// first inline number they leave free.
pub open spec fn items_mapping<T: AQLMapping>(items: Seq<T>, path: Seq<char>, next_id: nat) -> (Seq<char>, nat)
    decreases items.len(),
{
    if items.len() == 0 {
        (Seq::empty(), next_id)
    } else {
        let (text, id) = items_mapping(items.drop_last(), path, next_id);
        let sub = item_path(path, (items.len() - 1) as nat);
        (
            text + items.last().mapping_text(sub, id) + seq![','],
            items.last().mapping_next_id(sub, id),
        )
    }
}

proof fn lemma_items_next_id_grows<T: AQLMapping>(items: Seq<T>, path: Seq<char>, next_id: nat)
    ensures
        items_mapping(items, path, next_id).1 >= next_id,
    decreases items.len(),
{
    if items.len() > 0 {
        lemma_items_next_id_grows(items.drop_last(), path, next_id);
        let id = items_mapping(items.drop_last(), path, next_id).1;
        items.last().lemma_next_id_grows(item_path(path, (items.len() - 1) as nat), id);
    }
}

proof fn lemma_items_next_id_prefix<T: AQLMapping>(items: Seq<T>, i: int, path: Seq<char>, next_id: nat)
    requires
        0 <= i <= items.len(),
    ensures
        items_mapping(items.take(i), path, next_id).1 <= items_mapping(items, path, next_id).1,
    decreases items.len(),
{
    if i < items.len() {
        assert(items.drop_last().take(i) == items.take(i));
        lemma_items_next_id_prefix(items.drop_last(), i, path, next_id);
        let id = items_mapping(items.drop_last(), path, next_id).1;
        items.last().lemma_next_id_grows(item_path(path, (items.len() - 1) as nat), id);
    } else {
        assert(items.take(i) == items);
    }
}

/// A list maps to the JSON array of the mappings of its items, each followed
/// by a comma.
impl<T: AQLMapping> AQLMapping for Vec<T> {
    open spec fn mapping_text(&self, path: Seq<char>, next_id: nat) -> Seq<char> {
        seq!['['] + items_mapping(self@, path, next_id).0 + seq![']']
    }

    open spec fn mapping_next_id(&self, path: Seq<char>, next_id: nat) -> nat {
        items_mapping(self@, path, next_id).1
    }

    proof fn lemma_next_id_grows(&self, path: Seq<char>, next_id: nat) {
        lemma_items_next_id_grows(self@, path, next_id);
    }

    /// A list adds no `LET` step of its own, nor any of its items.
    open spec fn lets_text(&self, path: Seq<char>, next_id: nat) -> Seq<char> {
        Seq::empty()
    }

    open spec fn lets_next_id(&self, path: Seq<char>, next_id: nat) -> nat {
        next_id
    }

    fn include_let_steps<'a>(&self, aql: &mut AqlBuilder<'a>, path: &str, next_id: &mut usize) {
        proof {
            crate::database::aql::builder::lemma_same_setup_reflexive(*aql);
            assert(aql.query_text() + Seq::<char>::empty() =~= aql.query_text());
        }
    }

    fn map_to_json(&self, buffer: &mut String, path: &str, next_id: &mut usize) {
        proof {
            reveal_strlit("[");
            reveal_strlit("]");
            reveal_strlit(",");
        }
        let ghost start = buffer@;
        let ghost id0 = *next_id as nat;
        buffer.append("[");
        let mut i: usize = 0;
        while i < self.len()
            invariant
                0 <= i <= self@.len(),
                items_mapping(self@, path@, id0).1 <= AQL_MAX_VARIABLES,
                buffer@ == start + seq!['['] + items_mapping(self@.take(i as int), path@, id0).0,
                *next_id as nat == items_mapping(self@.take(i as int), path@, id0).1,
            decreases self@.len() - i,
        {
            let ghost prefix = self@.take(i as int);
            let ghost next = self@.take(i as int + 1);
            proof {
                reveal_strlit("[");
                reveal_strlit("]");
                reveal_strlit(",");
                assert(next.drop_last() == prefix);
                lemma_items_next_id_prefix(self@, i as int + 1, path@, id0);
            }
            let mut sub_path = String::from_str(path);
            sub_path.append("[");
            push_decimal(&mut sub_path, i as u64);
            sub_path.append("]");
            proof {
                assert("["@ =~= seq!['[']);
                assert("]"@ =~= seq![']']);
                assert(sub_path@ =~= item_path(path@, i as nat));
                assert(next.last() == self@[i as int]);
                assert(items_mapping(next, path@, id0).1
                    == self@[i as int].mapping_next_id(item_path(path@, i as nat), *next_id as nat));
            }
            let ghost before = buffer@;
            self[i].map_to_json(buffer, sub_path.as_str(), next_id);
            buffer.append(",");
            proof {
                assert(items_mapping(next, path@, id0).0
                    == items_mapping(prefix, path@, id0).0
                        + self@[i as int].mapping_text(item_path(path@, i as nat), items_mapping(prefix, path@, id0).1)
                        + seq![',']);
                assert(","@ =~= seq![',']);
                assert(buffer@ =~= start + seq!['['] + items_mapping(next, path@, id0).0);
            }
            i = i + 1;
        }
        proof {
            assert(self@.take(i as int) == self@);
        }
        buffer.append("]");
    }
}

} // verus!
