//! The field change-tracking primitive.
//!
//! A [`FieldInner`] is a value container with dirty tracking: it holds the
//! current value, the field's name and identity tag, and — while the field is
//! dirty — the value it had before the *first* mutation since the last clear.
//! A [`Field`] wraps a `FieldInner` and may carry a [`VersionFilter`] that is
//! evaluated on every mutation; the filter is advisory, so a write outside
//! the declared version range still proceeds and only reports the violation
//! to the caller.

use vstd::prelude::*;

use crate::version::{SoftwareVersion, VersionFilter, VersionSupport};

verus! {

/// Whether a value counts as "empty" for encoding purposes: an empty value
/// written to a field can map to a reset flag instead of a value parameter.
pub trait IsEmpty {
    spec fn spec_is_empty(&self) -> bool;

    fn is_empty(&self) -> (b: bool)
        ensures
            b == self.spec_is_empty(),
    ;
}

impl IsEmpty for String {
    open spec fn spec_is_empty(&self) -> bool {
        self@.len() == 0
    }

    fn is_empty(&self) -> (b: bool)
        ensures
            b == self.spec_is_empty(),
    {
        self.as_str().is_empty()
    }
}

impl IsEmpty for u32 {
    /// A numeric field has no empty form: no value of it triggers a reset
    /// encoding.
    open spec fn spec_is_empty(&self) -> bool {
        false
    }

    fn is_empty(&self) -> (b: bool)
        ensures
            b == self.spec_is_empty(),
    {
        false
    }
}

/// A value container with dirty tracking. `Identity` is the owning object's
/// field-identity type, tagging which of the object's fields this is.
///
/// The field is dirty exactly while `old_value` is present, and `old_value`
/// then holds the value as of the first mutation since the last clear.
pub struct FieldInner<T, Identity> {
    pub field_name: &'static str,
    pub field_identity: Identity,
    pub value: T,
    pub old_value: Option<T>,
}

impl<T, Identity> FieldInner<T, Identity> {
    /// A field is dirty exactly while it carries an old value.
    pub open spec fn spec_is_dirty(&self) -> bool {
        self.old_value is Some
    }

    /// The container after a mutation to `new_value`: the value is replaced,
    /// and the prior value is captured as the old value only on the first
    /// mutation since the last clear — a later mutation leaves it untouched.
    pub open spec fn spec_set(self, new_value: T) -> Self {
        FieldInner {
            value: new_value,
            old_value: if self.old_value is Some {
                self.old_value
            } else {
                Some(self.value)
            },
            ..self
        }
    }

    /// The container after a clear: the old value dropped, all else kept.
    pub open spec fn spec_clear(self) -> Self {
        FieldInner { old_value: None, ..self }
    }

    /// A fresh, clean field holding `value`.
    pub fn new(field_name: &'static str, field_identity: Identity, value: T) -> (f: Self)
        ensures
            f == (FieldInner { field_name, field_identity, value, old_value: None }),
    {
        FieldInner { field_name, field_identity, value, old_value: None }
    }

    /// Reads the current value; never a side effect.
    pub fn get(&self) -> (v: &T)
        ensures
            v == &self.value,
    {
        &self.value
    }

    /// Replaces the value, capturing the prior value as the old value if the
    /// field was clean. Never blocks or fails.
    pub fn set(&mut self, new_value: T)
        ensures
            *final(self) == old(self).spec_set(new_value),
    {
        let mut prev = new_value;
        core::mem::swap(&mut self.value, &mut prev);
        if self.old_value.is_none() {
            self.old_value = Some(prev);
        }
    }

    pub fn is_dirty(&self) -> (d: bool)
        ensures
            d == self.spec_is_dirty(),
    {
        self.old_value.is_some()
    }

    /// The value before the first mutation since the last clear, if the field
    /// is dirty.
    pub fn old_value(&self) -> (v: Option<&T>)
        ensures
            v is Some <==> self.spec_is_dirty(),
            v matches Some(p) ==> self.old_value == Some(*p),
    {
        self.old_value.as_ref()
    }

    /// Returns the field to the clean state, dropping the old value;
    /// idempotent, whatever the prior state.
    pub fn clear_dirty(&mut self)
        ensures
            *final(self) == old(self).spec_clear(),
            !final(self).spec_is_dirty(),
    {
        self.old_value = None;
    }
}

/// A tracked field: either plain, or carrying a version filter that says —
/// advisorily — when the field is nominally available.
pub enum Field<T, Identity> {
    Field(FieldInner<T, Identity>),
    VersionedField(FieldInner<T, Identity>, VersionFilter),
}

impl<T, Identity> Field<T, Identity> {
    /// The inner container, whichever variant holds it.
    pub open spec fn spec_inner(&self) -> &FieldInner<T, Identity> {
        match self {
            Field::Field(inner) => inner,
            Field::VersionedField(inner, _) => inner,
        }
    }

    pub open spec fn spec_is_dirty(&self) -> bool {
        self.spec_inner().spec_is_dirty()
    }

    /// What a mutation at `current_version` reports: a plain field is always
    /// supported; a versioned field reports its filter's verdict.
    pub open spec fn spec_support_at(&self, current_version: SoftwareVersion) -> VersionSupport {
        match self {
            Field::Field(_) => VersionSupport::Supported,
            Field::VersionedField(_, filter) => filter.spec_applies_at(current_version),
        }
    }

    /// The field after a clear: the inner container cleared, the filter (if
    /// any) kept.
    pub open spec fn spec_clear(self) -> Self {
        match self {
            Field::Field(inner) => Field::Field(inner.spec_clear()),
            Field::VersionedField(inner, filter) => Field::VersionedField(
                inner.spec_clear(),
                filter,
            ),
        }
    }

    /// The field after a mutation to `new_value`: the inner container is
    /// mutated, the filter (if any) is kept.
    pub open spec fn spec_set(self, new_value: T) -> Self {
        match self {
            Field::Field(inner) => Field::Field(inner.spec_set(new_value)),
            Field::VersionedField(inner, filter) => Field::VersionedField(
                inner.spec_set(new_value),
                filter,
            ),
        }
    }

    /// A fresh, clean field with no version filter.
    pub fn new(field_name: &'static str, field_identity: Identity, value: T) -> (f: Self)
        ensures
            f == Field::<T, Identity>::Field(
                FieldInner { field_name, field_identity, value, old_value: None },
            ),
    {
        Field::Field(FieldInner::new(field_name, field_identity, value))
    }

    /// A fresh, clean field restricted by the `versions` filter.
    pub fn new_versioned(
        field_name: &'static str,
        field_identity: Identity,
        value: T,
        versions: VersionFilter,
    ) -> (f: Self)
        ensures
            f == Field::<T, Identity>::VersionedField(
                FieldInner { field_name, field_identity, value, old_value: None },
                versions,
            ),
    {
        Field::VersionedField(FieldInner::new(field_name, field_identity, value), versions)
    }

    /// The inner container, whichever variant holds it.
    pub fn inner(&self) -> (inner: &FieldInner<T, Identity>)
        ensures
            inner == self.spec_inner(),
    {
        match self {
            Field::Field(inner) => inner,
            Field::VersionedField(inner, _) => inner,
        }
    }

    /// Reads the current value. Read access never checks the version filter
    /// and never has a side effect.
    pub fn get(&self) -> (v: &T)
        ensures
            v == &self.spec_inner().value,
    {
        match self {
            Field::Field(inner) => inner.get(),
            Field::VersionedField(inner, _) => inner.get(),
        }
    }

    /// Mutates the field to `new_value`, capturing the prior value as the old
    /// value if the field was clean, and reports whether `current_version`
    /// lies in the field's nominal version range. The filter is advisory: the
    /// mutation proceeds whatever the verdict, and the caller decides what
    /// diagnostic to emit for an out-of-range write.
    pub fn set(&mut self, current_version: SoftwareVersion, new_value: T) -> (support:
        VersionSupport)
        ensures
            *final(self) == old(self).spec_set(new_value),
            support == old(self).spec_support_at(current_version),
    {
        match self {
            Field::Field(inner) => {
                inner.set(new_value);
                VersionSupport::Supported
            },
            Field::VersionedField(inner, filter) => {
                inner.set(new_value);
                filter.applies_at(current_version)
            },
        }
    }

    pub fn is_dirty(&self) -> (d: bool)
        ensures
            d == self.spec_is_dirty(),
    {
        match self {
            Field::Field(inner) => inner.is_dirty(),
            Field::VersionedField(inner, _) => inner.is_dirty(),
        }
    }

    /// The value before the first mutation since the last clear, if the field
    /// is dirty.
    pub fn old_value(&self) -> (v: Option<&T>)
        ensures
            v is Some <==> self.spec_is_dirty(),
            v matches Some(p) ==> self.spec_inner().old_value == Some(*p),
    {
        match self {
            Field::Field(inner) => inner.old_value(),
            Field::VersionedField(inner, _) => inner.old_value(),
        }
    }

    /// Returns the field to the clean state; idempotent, whatever the prior
    /// state.
    pub fn clear_dirty(&mut self)
        ensures
            *final(self) == old(self).spec_clear(),
            !final(self).spec_is_dirty(),
    {
        match self {
            Field::Field(inner) => inner.clear_dirty(),
            Field::VersionedField(inner, _) => inner.clear_dirty(),
        }
    }
}

/// The old value records the first write of a dirty window: a mutation of a
/// clean field captures the pre-mutation value, and a second mutation without
/// an intervening clear leaves that captured value — the original one —
/// unchanged.
pub proof fn lemma_old_value_is_first_write<T, Identity>(
    f: Field<T, Identity>,
    v1: T,
    v2: T,
)
    requires
        !f.spec_is_dirty(),
    ensures
        f.spec_set(v1).spec_inner().old_value == Some(f.spec_inner().value),
        f.spec_set(v1).spec_set(v2).spec_inner().old_value == Some(f.spec_inner().value),
{
}

} // verus!
