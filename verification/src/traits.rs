//! The contracts of whole-record values: what patches and partial records
//! have in common, and what each adds.

use crate::mismatch::{MismatchType, MismatchView, MultipleMismatchError};
use vstd::prelude::*;

verus! {

/// Marks a record type for which a patch type exists.
pub trait PatchableExt: Sized {

}

/// A number of slots as the contracts speak of it.
pub type Count = nat;

/// A list of mismatches as the contracts speak of it.
pub type Mismatches = Seq<MismatchView>;

/// The mismatches that a check reported: none for `Ok`.
pub open spec fn reported(outcome: Result<(), MultipleMismatchError>) -> Seq<MismatchView> {
    match outcome {
        Ok(_) => Seq::empty(),
        Err(errors) => errors@,
    }
}

/// Whether `outcome` is the right answer of a check that found `found`:
/// `Ok` when nothing was found, else an error that holds exactly `found`.
pub open spec fn reports(outcome: Result<(), MultipleMismatchError>, found: Seq<MismatchView>) -> bool {
    &&& outcome.is_ok() == (found.len() == 0)
    &&& reported(outcome) == found
}

/// The outcome of two checks as one: `Ok` when both passed, else an error
/// with the mismatches of the first followed by those of the second.
pub fn combine(
    first: Result<(), MultipleMismatchError>,
    second: Result<(), MultipleMismatchError>,
) -> (both: Result<(), MultipleMismatchError>)
    ensures
        both.is_ok() == (first.is_ok() && second.is_ok()),
        reported(both) == reported(first) + reported(second),
{
    match (first, second) {
        (Ok(_), Ok(_)) => {
            assert(reported(first) + reported(second) =~= Seq::empty());
            Ok(())
        },
        (Err(e), Ok(_)) => {
            assert(reported(first) + reported(second) =~= e@);
            Err(e)
        },
        (Ok(_), Err(e)) => {
            assert(reported(first) + reported(second) =~= e@);
            Err(e)
        },
        (Err(mut e1), Err(e2)) => {
            e1.merge(&e2);
            Err(e1)
        },
    }
}

/// What patches and partial records have in common: a fixed number of slots,
/// each of which is set or not, and a way to write the set ones into a
/// target. `ErrorType` is what `apply` answers with.
pub trait Base<ErrorType> {
    /// The record type that this value applies to.
    type Target;

    /// The number of slots.
    const MAX_FIELDS: usize;

    /// The number of slots, as the contracts speak of it.
    spec fn max_fields_spec() -> Count;

    /// The number of slots that are set.
    spec fn count_spec(&self) -> Count;

    /// Whether the result of applying this value to `obj` fits into the
    /// target's fields.
    spec fn can_apply(&self, obj: &Self::Target) -> bool;

    /// Whether `apply` may turn `before` into `after` and answer `outcome`.
    spec fn is_applied(&self, before: &Self::Target, after: &Self::Target, outcome: ErrorType) -> bool;

    /// The contracts speak of the number that `MAX_FIELDS` holds.
    proof fn max_fields_is_the_constant()
        ensures
            Self::max_fields_spec() == Self::MAX_FIELDS,
    ;

    /// No more slots are set than there are.
    proof fn count_is_bounded(&self)
        ensures
            self.count_spec() <= Self::max_fields_spec(),
    ;

    /// True when every slot is set.
    fn is_complete(&self) -> (complete: bool)
        ensures
            complete == (self.count_spec() == Self::max_fields_spec()),
    ;

    /// True when no slot is set.
    fn is_empty(&self) -> (empty: bool)
        ensures
            empty == (self.count_spec() == 0),
    ;

    /// The number of slots that are set.
    fn count(&self) -> (n: u32)
        ensures
            n == self.count_spec(),
            n <= Self::max_fields_spec(),
    ;

    /// Writes the set slots into `obj`.
    fn apply(&self, obj: &mut Self::Target) -> (outcome: ErrorType)
        requires
            self.can_apply(old(obj)),
        ensures
            self.is_applied(old(obj), final(obj), outcome),
    ;
}

/// A record of which some fields may be missing, and which turns into its
/// target once all are there.
pub trait Partial: Base<()> + TryFrom<<Self as Base<()>>::Target> {

}

/// A conditional update of a record: identity fields that name the target,
/// and one optional diff for each field that can be set.
pub trait Patch: Base<Result<(), MultipleMismatchError>> + Sized {
    /// The patch without the diffs that contain no change.
    spec fn cleaned(&self) -> Self;

    /// One mismatch for every identity field of the patch that differs from
    /// `obj`'s, in the order of the fields.
    spec fn identity_mismatches(&self, obj: &Self::Target) -> Mismatches;

    /// The mismatch of every diff that is set and does not apply cleanly to
    /// its field of `obj`, in the order of the fields.
    spec fn value_mismatches(&self, obj: &Self::Target) -> Mismatches;

    /// Whether the two patches have equal identity fields.
    spec fn same_target_spec(&self, other: &Self) -> bool;

    /// Cleaning a cleaned patch changes nothing.
    proof fn cleaned_is_clean(&self)
        ensures
            self.cleaned().cleaned() == self.cleaned(),
    ;

    /// Cleaning sets no slot, and changes the patch exactly when it unsets
    /// one.
    proof fn cleaned_unsets_slots(&self)
        ensures
            self.cleaned().count_spec() <= self.count_spec(),
            (self.cleaned() == *self) == (self.cleaned().count_spec() == self.count_spec()),
    ;

    /// The mismatches of the identity fields are of kind `ObjectID`.
    proof fn identity_mismatches_kind(&self, obj: &Self::Target)
        ensures
            forall|i: int|
                0 <= i < self.identity_mismatches(obj).len() ==> (
                #[trigger] self.identity_mismatches(obj)[i]).mismatch_type
                    == MismatchType::ObjectID,
    ;

    /// The mismatches of the diffs are of kind `PatchOldValue`.
    proof fn value_mismatches_kind(&self, obj: &Self::Target)
        ensures
            forall|i: int|
                0 <= i < self.value_mismatches(obj).len() ==> (#[trigger] self.value_mismatches(
                    obj,
                )[i]).mismatch_type == MismatchType::PatchOldValue,
    ;

    /// Unsets every diff that contains no change, and says whether there was
    /// one.
    fn cleanup(&mut self) -> (removed: bool)
        ensures
            *final(self) == old(self).cleaned(),
            removed == (old(self).cleaned() != *old(self)),
    ;

    /// Compares the identity fields of the patch with those of `obj`, all of
    /// them, and fails when any differs.
    fn is_correct_target(&self, obj: &Self::Target) -> (outcome: Result<(), MultipleMismatchError>)
        ensures
            reports(outcome, self.identity_mismatches(obj)),
    ;

    /// Whether the two patches have equal identity fields, whatever their
    /// diffs are.
    fn is_same_target(&self, other: &Self) -> (same: bool)
        ensures
            same == self.same_target_spec(other),
    ;

    /// Asks every diff that is set whether it applies cleanly to its field of
    /// `obj`, and fails when any does not.
    fn can_apply_cleanly(&self, obj: &Self::Target) -> (outcome: Result<(), MultipleMismatchError>)
        ensures
            reports(outcome, self.value_mismatches(obj)),
    ;

    /// Runs both `is_correct_target` and `can_apply_cleanly`, always, and
    /// reports the mismatches of the first followed by those of the second.
    fn check(&self, obj: &Self::Target) -> (outcome: Result<(), MultipleMismatchError>)
        ensures
            reports(outcome, self.identity_mismatches(obj) + self.value_mismatches(obj)),
    {
        let e1 = self.is_correct_target(obj);
        let e2 = self.can_apply_cleanly(obj);
        combine(e1, e2)
    }
}

/// Cleaning up twice in a row leaves the patch that cleaning up once leaves,
/// and the second cleanup has nothing to remove.
pub proof fn lemma_cleanup_idempotent<P: Patch>(patch: P)
    ensures
        patch.cleaned().cleaned() == patch.cleaned(),
{
    patch.cleaned_is_clean();
}

} // verus!
