use crate::diff::traits::Diff;
use crate::mismatch::{MismatchError, MismatchType, MismatchView};
use crate::patchable::PatchableField;
use vstd::prelude::*;

verus! {

/// A diff that keeps both the value before the change and the value after
/// it. It applies only to a field that still holds the value before. The
/// mismatch that it reports otherwise names the field `food`, whatever field
/// the diff is for, and carries the texts of the old value and of the value
/// that it met.
#[derive(Debug, Eq, PartialEq, Copy, Clone)]
pub struct CopyDiff<T> where T: PatchableField {
    new_value: T,
    old_value: T,
}

impl<T: PatchableField> CopyDiff<T> {
    /// The value that the field must hold for the diff to apply.
    pub closed spec fn old_spec(&self) -> T {
        self.old_value
    }

    /// The value that the diff writes.
    pub closed spec fn new_spec(&self) -> T {
        self.new_value
    }

    /// The value that the field must hold for the diff to apply.
    pub fn old_value(&self) -> (value: &T)
        ensures
            *value == self.old_spec(),
    {
        &self.old_value
    }

    /// The value that the diff writes.
    pub fn new_value(&self) -> (value: &T)
        ensures
            *value == self.new_spec(),
    {
        &self.new_value
    }
}

impl<T> Diff for CopyDiff<T> where T: Clone + PatchableField {
    type DiffResult = T;

    type Object = T;

    open spec fn can_record(old: &T, new: &T) -> bool {
        true
    }

    open spec fn records(&self, old: &T, new: &T) -> bool {
        old.compare_spec(&self.old_spec()) && new.compare_spec(&self.new_spec())
    }

    open spec fn contains_change_spec(&self) -> bool {
        !self.new_spec().compare_spec(&self.old_spec())
    }

    open spec fn changes_object_spec(&self, current: &T) -> bool {
        self.contains_change_spec() && current.compare_spec(&self.new_spec())
    }

    open spec fn applies_cleanly_spec(&self, obj: &T) -> bool {
        self.old_spec().compare_spec(obj)
    }

    open spec fn mismatch_spec(&self, obj: &T) -> MismatchView {
        MismatchView {
            field_name: "food"@,
            expected: self.old_spec().debug_spec(),
            received: obj.debug_spec(),
            mismatch_type: MismatchType::PatchOldValue,
        }
    }

    open spec fn can_apply(&self, obj: &T) -> bool {
        true
    }

    open spec fn is_applied(&self, before: &T, after: &T) -> bool {
        self.new_spec().compare_spec(after)
    }

    open spec fn can_merge(&self, rhs: &Self) -> bool {
        true
    }

    open spec fn merges(&self, rhs: &Self) -> bool {
        rhs.old_spec().compare_spec(&self.new_spec())
    }

    open spec fn is_merged(&self, rhs: &Self, merged: &Self) -> bool {
        merged.old_spec() == self.old_spec() && rhs.new_spec().compare_spec(&merged.new_spec())
    }

    proof fn mismatch_is_with_old_value(&self, obj: &T) {
    }

    proof fn applies_to_its_old_value(&self, old: &T, new: &T) {
        T::compare_symmetric(old, &self.old_spec());
    }

    proof fn step_to_itself_is_no_change(&self, value: &T) {
        T::compare_symmetric(value, &self.new_spec());
        T::compare_transitive(&self.new_spec(), value, &self.old_spec());
    }

    proof fn chain_merges(&self, rhs: &Self, merged: &Self, a: &T, b: &T, c: &T) {
        T::compare_symmetric(b, &rhs.old_spec());
        T::compare_transitive(&rhs.old_spec(), b, &self.new_spec());
        if self.is_merged(rhs, merged) {
            T::compare_transitive(c, &rhs.new_spec(), &merged.new_spec());
        }
    }

    fn new(old: &T, new: &T) -> (diff: Self) {
        CopyDiff { old_value: old.copy(), new_value: new.copy() }
    }

    fn changes_object(&self, old: &T) -> (changes: bool) {
        self.contains_change() && old.compare(&self.new_value)
    }

    fn contains_change(&self) -> (changes: bool) {
        !self.new_value.compare(&self.old_value)
    }

    fn merge(&mut self, rhs: &Self) -> (outcome: Result<(), ()>) {
        if rhs.old_value.compare(&self.new_value) {
            self.new_value = rhs.new_value.copy();
            Ok(())
        } else {
            Err(())
        }
    }

    fn applies_cleanly(&self, obj: &T) -> (outcome: Result<(), MismatchError>) {
        if self.old_value.compare(obj) {
            Ok(())
        } else {
            Err(
                MismatchError::from_parts(
                    "food",
                    self.old_value.debug_text(),
                    obj.debug_text(),
                    MismatchType::PatchOldValue,
                ),
            )
        }
    }

    fn apply_into(&self, obj: &mut T) -> (outcome: Result<(), MismatchError>) {
        match self.applies_cleanly(obj) {
            Ok(()) => {
                *obj = self.new_value.copy();
                Ok(())
            },
            Err(e) => Err(e),
        }
    }
}

} // verus!
