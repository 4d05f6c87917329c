//! A document field that distinguishes "absent" from "explicitly null".

use vstd::prelude::*;
use vstd::pervasive::unreached;
use crate::database::normalize::{DBNormalize, DBNormalizeResult};

verus! {

/// A field that may be missing, null or hold a value.
#[derive(Debug, Clone, PartialEq, Eq)]
pub enum NullableOption<T> {
    Missing,
    Null,
    Value(T),
}

impl<T> NullableOption<T> {
    // GETTERS ----------------------------------------------------------------

    pub fn is_missing(&self) -> (r: bool)
        ensures
            r == (*self is Missing),
    {
        matches!(self, NullableOption::Missing)
    }

    pub fn is_null(&self) -> (r: bool)
        ensures
            r == (*self is Null),
    {
        matches!(self, NullableOption::Null)
    }

    pub fn is_value(&self) -> (r: bool)
        ensures
            r == (*self is Value),
    {
        matches!(self, NullableOption::Value(_))
    }

    /// The value held; only for a field that holds one.
    pub fn unwrap_as_ref(&self) -> (r: &T)
        requires
            *self is Value,
        ensures
            *r == self->Value_0,
    {
        match self {
            NullableOption::Value(v) => v,
            _ => unreached(),
        }
    }

    /// The value held, to be changed in place; only for a field that holds one.
    pub fn unwrap_as_mut_ref(&mut self) -> (r: &mut T)
        requires
            *old(self) is Value,
        ensures
            *r == old(self)->Value_0,
            *final(self) == NullableOption::Value(*final(r)),
    {
        match self {
            NullableOption::Value(v) => v,
            _ => unreached(),
        }
    }

    // METHODS ----------------------------------------------------------------

    /// The value held; only for a field that holds one.
    pub fn unwrap(self) -> (r: T)
        requires
            self is Value,
        ensures
            r == self->Value_0,
    {
        match self {
            NullableOption::Value(v) => v,
            _ => unreached(),
        }
    }

    /// The value held, or `other` for a missing or null field.
    pub fn unwrap_or(self, other: T) -> (r: T)
        ensures
            r == match self {
                NullableOption::Value(v) => v,
                _ => other,
            },
    {
        match self {
            NullableOption::Value(v) => v,
            _ => other,
        }
    }

    /// Applies `mapper` to the value held, keeping a missing or null field as it is.
    pub fn map<F, R>(self, mapper: F) -> (r: NullableOption<R>)
        where
            F: FnOnce(T) -> R,
        requires
            self matches NullableOption::Value(v) ==> mapper.requires((v,)),
        ensures
            self is Missing ==> r is Missing,
            self is Null ==> r is Null,
            self matches NullableOption::Value(v) ==> r matches NullableOption::Value(w)
                && mapper.ensures((v,), w),
    {
        match self {
            NullableOption::Missing => NullableOption::Missing,
            NullableOption::Null => NullableOption::Null,
            NullableOption::Value(v) => NullableOption::Value(mapper(v)),
        }
    }
}

impl<T: Default> NullableOption<T> {
    /// The value held, or the default value of `T` for a missing or null field.
    pub fn unwrap_or_default(self) -> (r: T)
        ensures
            self matches NullableOption::Value(v) ==> r == v,
            !(self is Value) ==> call_ensures(T::default, (), r),
    {
        match self {
            NullableOption::Value(v) => v,
            _ => T::default(),
        }
    }
}

/// A value is normalized inside the field; a value that normalization
/// removes leaves the field null.
impl<T: DBNormalize> DBNormalize for NullableOption<T> {
    open spec fn normalize_result(&self) -> DBNormalizeResult {
        match self {
            NullableOption::Value(v) => match v.normalize_result() {
                DBNormalizeResult::NotModified => DBNormalizeResult::NotModified,
                _ => DBNormalizeResult::Modified,
            },
            _ => DBNormalizeResult::NotModified,
        }
    }

    open spec fn normalized(&self) -> Self {
        match self {
            NullableOption::Value(v) => match v.normalize_result() {
                DBNormalizeResult::Removed => NullableOption::Null,
                _ => NullableOption::Value(v.normalized()),
            },
            _ => *self,
        }
    }

    fn normalize(&mut self) -> (r: DBNormalizeResult) {
        let mut modified = false;
        let mut removed = false;
        if let NullableOption::Value(value) = self {
            match value.normalize() {
                DBNormalizeResult::NotModified => {},
                DBNormalizeResult::Modified => {
                    modified = true;
                },
                DBNormalizeResult::Removed => {
                    removed = true;
                },
            }
        }
        if removed {
            *self = NullableOption::Null;
            modified = true;
        }
        if modified {
            DBNormalizeResult::Modified
        } else {
            DBNormalizeResult::NotModified
        }
    }
}

/// A field starts missing.
impl<T> Default for NullableOption<T> {
    fn default() -> (r: Self)
        ensures
            r is Missing,
    {
        NullableOption::Missing
    }
}

/// `None` becomes a null field, `Some(v)` a field holding `v`.
impl<T> From<Option<T>> for NullableOption<T> {
    fn from(opt: Option<T>) -> (r: NullableOption<T>) {
        match opt {
            Some(v) => NullableOption::Value(v),
            None => NullableOption::Null,
        }
    }
}

impl<T> vstd::std_specs::convert::FromSpecImpl<Option<T>> for NullableOption<T> {
    open spec fn obeys_from_spec() -> bool {
        true
    }

    open spec fn from_spec(opt: Option<T>) -> NullableOption<T> {
        match opt {
            Some(v) => NullableOption::Value(v),
            None => NullableOption::Null,
        }
    }
}

// LAWS -----------------------------------------------------------------------

/// Normalizing a field never asks to remove the field itself: a value that
/// normalization removes leaves the field null, and a missing or null field
/// stays as it is.
pub proof fn lemma_nullable_normalize_keeps_field<T: DBNormalize>(field: NullableOption<T>)
    ensures
        field.normalize_result() != DBNormalizeResult::Removed,
        field.normalized() is Missing <==> field is Missing,
        field is Null ==> field.normalized() is Null,
        field.normalize_result() is NotModified ==> field.normalized() == (match field {
            NullableOption::Value(v) => NullableOption::Value(v.normalized()),
            other => other,
        }),
        field matches NullableOption::Value(v) ==> (field.normalize_result().is_modified_spec()
            <==> !(v.normalize_result() is NotModified)),
{
}

} // verus!
