//! Normalization of document fields before they are stored: values that carry
//! nothing (`false`, `0`, empty collections) are marked for removal.

use vstd::prelude::*;
use std::collections::{HashMap, HashSet};

verus! {

/// What normalizing a value did.
#[derive(Debug, Clone, Copy, PartialEq, Eq, Structural)]
pub enum DBNormalizeResult {
    NotModified,
    Modified,
    Removed,
}

impl DBNormalizeResult {
    /// Whether normalization changed anything (modified or removed the value).
    pub open spec fn is_modified_spec(&self) -> bool {
        !(*self is NotModified)
    }

    /// Whether normalization changed anything (modified or removed the value).
    pub fn modified(&self) -> (r: bool)
        ensures
            r == self.is_modified_spec(),
    {
        !matches!(self, DBNormalizeResult::NotModified)
    }
}

/// A value that can be normalized in place.
pub trait DBNormalize: Sized {
    /// The result that normalizing this value reports.
    spec fn normalize_result(&self) -> DBNormalizeResult;

    /// The value after normalization.
    spec fn normalized(&self) -> Self;

    /// Normalizes the value and reports whether it has been modified or can
    /// be removed; a value reported not modified is left as it was.
    fn normalize(&mut self) -> (r: DBNormalizeResult)
        ensures
            r == old(self).normalize_result(),
            *final(self) == old(self).normalized(),
            r is NotModified ==> *final(self) == *old(self);
}

/// `false` carries nothing.
impl DBNormalize for bool {
    open spec fn normalize_result(&self) -> DBNormalizeResult {
        if !*self { DBNormalizeResult::Removed } else { DBNormalizeResult::NotModified }
    }

    open spec fn normalized(&self) -> Self {
        *self
    }

    fn normalize(&mut self) -> (r: DBNormalizeResult) {
        if !*self {
            DBNormalizeResult::Removed
        } else {
            DBNormalizeResult::NotModified
        }
    }
}

impl DBNormalize for u8 {
    open spec fn normalize_result(&self) -> DBNormalizeResult {
        if *self == 0 { DBNormalizeResult::Removed } else { DBNormalizeResult::NotModified }
    }

    open spec fn normalized(&self) -> Self {
        *self
    }

    fn normalize(&mut self) -> (r: DBNormalizeResult) {
        if *self == 0 {
            DBNormalizeResult::Removed
        } else {
            DBNormalizeResult::NotModified
        }
    }
}

impl DBNormalize for u16 {
    open spec fn normalize_result(&self) -> DBNormalizeResult {
        if *self == 0 { DBNormalizeResult::Removed } else { DBNormalizeResult::NotModified }
    }

    open spec fn normalized(&self) -> Self {
        *self
    }

    fn normalize(&mut self) -> (r: DBNormalizeResult) {
        if *self == 0 {
            DBNormalizeResult::Removed
        } else {
            DBNormalizeResult::NotModified
        }
    }
}

impl DBNormalize for i32 {
    open spec fn normalize_result(&self) -> DBNormalizeResult {
        if *self == 0 { DBNormalizeResult::Removed } else { DBNormalizeResult::NotModified }
    }

    open spec fn normalized(&self) -> Self {
        *self
    }

    fn normalize(&mut self) -> (r: DBNormalizeResult) {
        if *self == 0 {
            DBNormalizeResult::Removed
        } else {
            DBNormalizeResult::NotModified
        }
    }
}

impl DBNormalize for u64 {
    open spec fn normalize_result(&self) -> DBNormalizeResult {
        if *self == 0 { DBNormalizeResult::Removed } else { DBNormalizeResult::NotModified }
    }

    open spec fn normalized(&self) -> Self {
        *self
    }

    fn normalize(&mut self) -> (r: DBNormalizeResult) {
        if *self == 0 {
            DBNormalizeResult::Removed
        } else {
            DBNormalizeResult::NotModified
        }
    }
}

impl DBNormalize for i64 {
    open spec fn normalize_result(&self) -> DBNormalizeResult {
        if *self == 0 { DBNormalizeResult::Removed } else { DBNormalizeResult::NotModified }
    }

    open spec fn normalized(&self) -> Self {
        *self
    }

    fn normalize(&mut self) -> (r: DBNormalizeResult) {
        if *self == 0 {
            DBNormalizeResult::Removed
        } else {
            DBNormalizeResult::NotModified
        }
    }
}

/// An optional value is left as it is.
impl<T> DBNormalize for Option<T> {
    open spec fn normalize_result(&self) -> DBNormalizeResult {
        DBNormalizeResult::NotModified
    }

    open spec fn normalized(&self) -> Self {
        *self
    }

    fn normalize(&mut self) -> (r: DBNormalizeResult) {
        DBNormalizeResult::NotModified
    }
}

/// An empty list carries nothing.
impl<T> DBNormalize for Vec<T> {
    open spec fn normalize_result(&self) -> DBNormalizeResult {
        if self@.len() == 0 { DBNormalizeResult::Removed } else { DBNormalizeResult::NotModified }
    }

    open spec fn normalized(&self) -> Self {
        *self
    }

    fn normalize(&mut self) -> (r: DBNormalizeResult) {
        if self.is_empty() {
            DBNormalizeResult::Removed
        } else {
            DBNormalizeResult::NotModified
        }
    }
}

/// An empty set carries nothing.
impl<T> DBNormalize for HashSet<T> {
    open spec fn normalize_result(&self) -> DBNormalizeResult {
        if self@.is_empty() { DBNormalizeResult::Removed } else { DBNormalizeResult::NotModified }
    }

    open spec fn normalized(&self) -> Self {
        *self
    }

    fn normalize(&mut self) -> (r: DBNormalizeResult) {
        if self.is_empty() {
            DBNormalizeResult::Removed
        } else {
            DBNormalizeResult::NotModified
        }
    }
}

/// An empty map carries nothing.
impl<K, T> DBNormalize for HashMap<K, T> {
    open spec fn normalize_result(&self) -> DBNormalizeResult {
        if self@.is_empty() { DBNormalizeResult::Removed } else { DBNormalizeResult::NotModified }
    }

    open spec fn normalized(&self) -> Self {
        *self
    }

    fn normalize(&mut self) -> (r: DBNormalizeResult) {
        if self.is_empty() {
            DBNormalizeResult::Removed
        } else {
            DBNormalizeResult::NotModified
        }
    }
}

/// The shared string type of `arcstr`.
#[verifier::external_type_specification]
#[verifier::external_body]
pub struct ExArcStr(arcstr::ArcStr);

/// A string is left as it is, even an empty one.
impl DBNormalize for arcstr::ArcStr {
    open spec fn normalize_result(&self) -> DBNormalizeResult {
        DBNormalizeResult::NotModified
    }

    open spec fn normalized(&self) -> Self {
        *self
    }

    fn normalize(&mut self) -> (r: DBNormalizeResult) {
        DBNormalizeResult::NotModified
    }
}


/// A number field carries nothing exactly when it is zero, and a flag
/// exactly when it is `false`: those are marked for removal; every other
/// value is kept unchanged, and none is ever reported as modified.
pub proof fn lemma_scalar_fields_removed_when_zero(flag: bool, a: u8, b: u16, c: i32, d: u64, e: i64)
    ensures
        (flag.normalize_result() is Removed) <==> !flag,
        (a.normalize_result() is Removed) <==> a == 0,
        (b.normalize_result() is Removed) <==> b == 0,
        (c.normalize_result() is Removed) <==> c == 0,
        (d.normalize_result() is Removed) <==> d == 0,
        (e.normalize_result() is Removed) <==> e == 0,
        flag.normalize_result() !is Modified && a.normalize_result() !is Modified
            && b.normalize_result() !is Modified && c.normalize_result() !is Modified
            && d.normalize_result() !is Modified && e.normalize_result() !is Modified,
        flag.normalized() == flag && a.normalized() == a && b.normalized() == b
            && c.normalized() == c && d.normalized() == d && e.normalized() == e,
{
}

/// A list, set or map carries nothing exactly when it is empty; an optional
/// value and a string are always kept; none is changed or reported modified.
pub proof fn lemma_collection_fields_removed_when_empty<K, T>(
    list: Vec<T>,
    set: HashSet<T>,
    map: HashMap<K, T>,
    option: Option<T>,
    text: arcstr::ArcStr,
)
    ensures
        (list.normalize_result() is Removed) <==> list@.len() == 0,
        (set.normalize_result() is Removed) <==> set@ == Set::<T>::empty(),
        (map.normalize_result() is Removed) <==> map@ == Map::<K, T>::empty(),
        option.normalize_result() is NotModified,
        text.normalize_result() is NotModified,
        list.normalize_result() !is Modified && set.normalize_result() !is Modified
            && map.normalize_result() !is Modified,
        list.normalized() == list && set.normalized() == set && map.normalized() == map
            && option.normalized() == option && text.normalized() == text,
{
    if set@.is_empty() {
        assert(set@ =~= Set::<T>::empty());
    }
    if map@.is_empty() {
        assert(map@ =~= Map::<K, T>::empty());
    }
}

} // verus!
