use crate::mismatch::{MismatchError, MismatchType, MismatchView};
use vstd::prelude::*;

verus! {

/// A recorded change to one field of type `Object`.
///
/// The spec functions say what a variant stores and when it applies; the
/// executable methods are tied to them, so code that is generic over the
/// variant can reason about a patch slot without knowing which one it holds.
pub trait Diff: Sized {
    /// What the variant stores to reproduce the change.
    type DiffResult: Clone;

    /// The type of the field.
    type Object;

    /// Whether the step from `old` to `new` fits into what the variant stores.
    spec fn can_record(old: &Self::Object, new: &Self::Object) -> bool;

    /// Whether this diff stands for the step from `old` to `new`.
    spec fn records(&self, old: &Self::Object, new: &Self::Object) -> bool;

    /// Whether the diff differs from the empty change.
    spec fn contains_change_spec(&self) -> bool;

    /// What `changes_object` answers for the value `current`.
    spec fn changes_object_spec(&self, current: &Self::Object) -> bool;

    /// Whether the diff may be applied to a field that holds `obj`.
    spec fn applies_cleanly_spec(&self, obj: &Self::Object) -> bool;

    /// The mismatch that is reported when the diff does not apply cleanly to
    /// `obj`. Where it does, the mismatch has no meaning.
    spec fn mismatch_spec(&self, obj: &Self::Object) -> MismatchView;

    /// Whether the result of applying the diff to `obj` fits into `Object`.
    spec fn can_apply(&self, obj: &Self::Object) -> bool;

    /// Whether `after` is what applying the diff makes of `before`.
    spec fn is_applied(&self, before: &Self::Object, after: &Self::Object) -> bool;

    /// Whether the composition with `rhs` fits into what the variant stores.
    spec fn can_merge(&self, rhs: &Self) -> bool;

    /// Whether `rhs` continues where this diff ends.
    spec fn merges(&self, rhs: &Self) -> bool;

    /// Whether `merged` stands for this diff followed by `rhs`.
    spec fn is_merged(&self, rhs: &Self, merged: &Self) -> bool;

    /// A diff applies cleanly to the value that it was made from.
    proof fn applies_to_its_old_value(&self, old: &Self::Object, new: &Self::Object)
        requires
            self.records(old, new),
        ensures
            self.applies_cleanly_spec(old),
    ;

    /// A diff made for the step from a value to itself contains no change.
    proof fn step_to_itself_is_no_change(&self, value: &Self::Object)
        requires
            self.records(value, value),
        ensures
            !self.contains_change_spec(),
    ;

    /// A diff for the step from `a` to `b` merges with one for the step from
    /// `b` to `c`, and what comes of it stands for the step from `a` to `c`.
    proof fn chain_merges(
        &self,
        rhs: &Self,
        merged: &Self,
        a: &Self::Object,
        b: &Self::Object,
        c: &Self::Object,
    )
        requires
            self.records(a, b),
            rhs.records(b, c),
        ensures
            self.merges(rhs),
            self.is_merged(rhs, merged) ==> merged.records(a, c),
    ;

    /// What the diff reports is a mismatch with the old value.
    proof fn mismatch_is_with_old_value(&self, obj: &Self::Object)
        ensures
            self.mismatch_spec(obj).mismatch_type == MismatchType::PatchOldValue,
    ;

    /// The diff that leads from `old` to `new`.
    fn new(old: &Self::Object, new: &Self::Object) -> (diff: Self)
        requires
            Self::can_record(old, new),
        ensures
            diff.records(old, new),
    ;

    /// See `changes_object_spec`.
    fn changes_object(&self, old: &Self::Object) -> (changes: bool)
        ensures
            changes == self.changes_object_spec(old),
    ;

    /// Whether the diff holds a change at all.
    fn contains_change(&self) -> (changes: bool)
        ensures
            changes == self.contains_change_spec(),
    ;

    /// Makes this diff stand for itself followed by `rhs`. Fails, and leaves
    /// the diff as it was, when `rhs` does not continue it.
    fn merge(&mut self, rhs: &Self) -> (outcome: Result<(), ()>)
        requires
            old(self).can_merge(rhs),
        ensures
            outcome.is_ok() == old(self).merges(rhs),
            outcome.is_ok() ==> old(self).is_merged(rhs, final(self)),
            outcome.is_err() ==> *final(self) == *old(self),
    ;

    /// Checks that the diff may be applied to `obj`. A failure is reported as
    /// a mismatch with the old value.
    fn applies_cleanly(&self, obj: &Self::Object) -> (outcome: Result<(), MismatchError>)
        ensures
            outcome.is_ok() == self.applies_cleanly_spec(obj),
            outcome matches Err(e) ==> e@ == self.mismatch_spec(obj),
    ;

    /// Applies the diff to `obj` after the check of `applies_cleanly`. On a
    /// failure `obj` keeps its value.
    fn apply_into(&self, obj: &mut Self::Object) -> (outcome: Result<(), MismatchError>)
        requires
            self.can_apply(old(obj)),
        ensures
            outcome.is_ok() == self.applies_cleanly_spec(old(obj)),
            outcome.is_ok() ==> self.is_applied(old(obj), final(obj)),
            outcome.is_err() ==> *final(obj) == *old(obj),
            outcome matches Err(e) ==> e@ == self.mismatch_spec(old(obj)),
    ;
}

} // verus!
