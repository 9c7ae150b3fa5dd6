//! The tri-state value carried by every patchable field.

use vstd::prelude::*;

verus! {

/// What a patch request says about one field.
///
/// `Missing`: the field was left out, keep the stored value.
/// `Null`: the field was explicitly emptied, clear the stored value.
/// `Value(v)`: the field was given, store `v`.
#[derive(Debug)]
pub enum Patch<T> {
    Missing,
    Null,
    Value(T),
}

/// A field as it is found when a request body is looked up by key: `None` when
/// the key is not there, `Some(None)` when it is there with an empty value,
/// `Some(Some(v))` when it holds `v`.
pub type Field<T> = Option<Option<T>>;

impl<T> Patch<T> {
    /// The patch value that a looked-up field stands for.
    pub open spec fn of_field(field: Field<T>) -> Patch<T> {
        match field {
            None => Patch::Missing,
            Some(None) => Patch::Null,
            Some(Some(v)) => Patch::Value(v),
        }
    }

    /// The field that writes this patch value down again.
    pub open spec fn field(self) -> Field<T> {
        match self {
            Patch::Missing => None,
            Patch::Null => Some(None),
            Patch::Value(v) => Some(Some(v)),
        }
    }

    /// The stored value after the patch is applied to `current`.
    pub open spec fn applied(self, current: Option<T>) -> Option<T> {
        match self {
            Patch::Missing => current,
            Patch::Null => None,
            Patch::Value(v) => Some(v),
        }
    }

    /// Reads a looked-up field: an absent key is `Missing`, an empty value is
    /// `Null`, anything else is `Value`.
    pub fn from_field(field: Field<T>) -> (patch: Patch<T>)
        ensures
            patch == Self::of_field(field),
    {
        match field {
            None => Patch::Missing,
            Some(None) => Patch::Null,
            Some(Some(v)) => Patch::Value(v),
        }
    }

    /// Writes the patch value down as a field: `Missing` leaves the key out.
    pub fn into_field(self) -> (field: Field<T>)
        ensures
            field == self.field(),
    {
        match self {
            Patch::Missing => None,
            Patch::Null => Some(None),
            Patch::Value(v) => Some(Some(v)),
        }
    }

    /// Whether the request touches the field at all.
    pub fn is_missing(&self) -> (missing: bool)
        ensures
            missing == (*self is Missing),
    {
        match self {
            Patch::Missing => true,
            _ => false,
        }
    }

    /// Applies the patch to a stored optional value.
    pub fn apply(self, current: Option<T>) -> (stored: Option<T>)
        ensures
            stored == self.applied(current),
    {
        match self {
            Patch::Missing => current,
            Patch::Null => None,
            Patch::Value(v) => Some(v),
        }
    }

    /// Reading a written field gives the patch value back, so the three states
    /// stay apart on the way through a request body.
    pub proof fn lemma_field_round_trip(self)
        ensures
            Self::of_field(self.field()) == self,
    {
    }

    /// Writing a read field gives the field back.
    pub proof fn lemma_patch_round_trip(field: Field<T>)
        ensures
            Self::of_field(field).field() == field,
    {
    }

    /// No two of the three states are written down as the same field.
    pub proof fn lemma_field_injective(a: Patch<T>, b: Patch<T>)
        requires
            a.field() == b.field(),
        ensures
            a == b,
    {
    }
}

impl<T> Default for Patch<T> {
    /// A field that the request does not name.
    fn default() -> (patch: Patch<T>)
        ensures
            patch is Missing,
    {
        Patch::Missing
    }
}

impl<T> From<Option<T>> for Patch<T> {
    /// A field that is present in the request: empty is `Null`, filled is `Value`.
    fn from(opt: Option<T>) -> (patch: Patch<T>)
        ensures
            patch == Self::of_field(Some(opt)),
    {
        match opt {
            Some(v) => Patch::Value(v),
            None => Patch::Null,
        }
    }
}

impl<T> vstd::std_specs::convert::FromSpecImpl<Option<T>> for Patch<T> {
    open spec fn obeys_from_spec() -> bool {
        true
    }

    open spec fn from_spec(opt: Option<T>) -> Patch<T> {
        Self::of_field(Some(opt))
    }
}

} // verus!
