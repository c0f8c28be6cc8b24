//! A worked record. `Example` has an identity, two fields that can be set
//! (`food` and `bard`) and one that a partial never carries;
//! `PartialExample` is its partial record and `PatchExample` its patch. They
//! show what the contracts of [`crate::traits`] ask of a record type, and
//! are generic in the types of the two fields.

use crate::diff::Diff;
use crate::mismatch::{
    IncompleteError,
    MismatchError,
    MismatchType,
    MismatchView,
    MultipleMismatchError,
};
use crate::patchable::PatchableField;
use crate::text::{decimal, decimal_text};
use crate::traits::{combine, reported, reports, Base, Count, Mismatches, Partial, Patch};
use vstd::prelude::*;
use vstd::std_specs::convert::{FromSpecImpl, TryFromSpecImpl};

verus! {

/// What `something_special` is in a record that was built from a partial.
pub const SOMETHING_SPECIAL: u32 = 42;

/// The record.
#[derive(Debug, Clone, PartialEq)]
pub struct Example<F, B> {
    pub food: F,
    pub bard: B,
    /// Not part of a partial or a patch.
    pub something_special: u32,
    /// The identity of the record.
    pub id: u32,
}

/// A record of which `food` and `bard` may be missing.
#[derive(Debug, Clone, PartialEq)]
pub struct PartialExample<F, B> {
    pub food: Option<F>,
    pub bard: Option<B>,
    /// The identity of the record; always there.
    pub id: u32,
}

/// A conditional update of the record with the identity `id`.
#[derive(Debug, Clone, PartialEq)]
pub struct PatchExample<DF, DB> {
    /// The identity of the record that the patch is for.
    pub id: u32,
    pub food: Option<DF>,
    pub bard: Option<DB>,
}

/// 1 for a slot that is set, 0 for one that is not.
pub open spec fn set_count<T>(slot: Option<T>) -> nat {
    if slot.is_some() {
        1
    } else {
        0
    }
}

/// Whether `after` is `before` overwritten by a copy of the slot's value, if
/// the slot holds one.
pub open spec fn overwrites<T: PatchableField>(slot: Option<T>, before: T, after: T) -> bool {
    match slot {
        Some(value) => value.compare_spec(&after),
        None => after == before,
    }
}

/// Whether the two slots hold values that compare equal, or one of them
/// holds none.
pub open spec fn agree<T: PatchableField>(a: Option<T>, b: Option<T>) -> bool {
    match (a, b) {
        (Some(x), Some(y)) => x.compare_spec(&y),
        _ => true,
    }
}

impl<F: PatchableField, B: PatchableField> PartialExample<F, B> {
    /// The record that a complete partial stands for.
    pub open spec fn target(self) -> Example<F, B>
        recommends
            self.food.is_some(),
            self.bard.is_some(),
    {
        Example {
            food: self.food.unwrap(),
            bard: self.bard.unwrap(),
            something_special: SOMETHING_SPECIAL,
            id: self.id,
        }
    }

    /// The partial of the record `id` with no field set.
    pub fn new(id: u32) -> (partial: Self)
        ensures
            partial == (PartialExample::<F, B> { food: None, bard: None, id }),
    {
        PartialExample { id, food: None, bard: None }
    }

    /// The partial of the record `id` with the given fields.
    pub fn with_arguments(id: u32, food: Option<F>, bard: Option<B>) -> (partial: Self)
        ensures
            partial == (PartialExample { food, bard, id }),
    {
        PartialExample { id, food, bard }
    }

    /// Writes every field that is set here into `obj`, over what `obj` holds.
    pub fn merge_into(&self, obj: &mut PartialExample<F, B>)
        ensures
            final(obj).id == old(obj).id,
            match self.food {
                Some(food) => final(obj).food matches Some(copy) && food.compare_spec(&copy),
                None => final(obj).food == old(obj).food,
            },
            match self.bard {
                Some(bard) => final(obj).bard matches Some(copy) && bard.compare_spec(&copy),
                None => final(obj).bard == old(obj).bard,
            },
    {
        if let Some(food) = &self.food {
            obj.food = Some(food.copy());
        }
        if let Some(bard) = &self.bard {
            obj.bard = Some(bard.copy());
        }
    }

    /// Whether the fields that are set in both partials compare equal. True
    /// when none is.
    pub fn is_partial_equal_existing(&self, obj: &PartialExample<F, B>) -> (equal: bool)
        ensures
            equal == (agree(self.food, obj.food) && agree(self.bard, obj.bard)),
    {
        if let Some(food) = &self.food {
            if let Some(otherfood) = &obj.food {
                if !food.compare(otherfood) {
                    return false;
                }
            }
        }
        if let Some(bard) = &self.bard {
            if let Some(otherbard) = &obj.bard {
                if !bard.compare(otherbard) {
                    return false;
                }
            }
        }
        true
    }

    /// A record made of copies of the fields, when all are set.
    pub fn build(&self) -> (outcome: Result<Example<F, B>, ()>)
        ensures
            outcome.is_ok() == (self.food.is_some() && self.bard.is_some()),
            outcome matches Ok(record) ==> {
                &&& record.id == self.id
                &&& record.something_special == SOMETHING_SPECIAL
                &&& self.food.unwrap().compare_spec(&record.food)
                &&& self.bard.unwrap().compare_spec(&record.bard)
            },
    {
        if let Some(food) = &self.food {
            if let Some(bard) = &self.bard {
                return Ok(
                    Example {
                        food: food.copy(),
                        bard: bard.copy(),
                        id: self.id,
                        something_special: SOMETHING_SPECIAL,
                    },
                );
            }
        }
        Err(())
    }

    /// Turns a complete partial into its record. An incomplete one comes
    /// back inside the error, with the name of this operation and the
    /// identity in decimal digits.
    pub fn try_into_target(self) -> (outcome: Result<Example<F, B>, IncompleteError<Self>>)
        ensures
            outcome.is_ok() == (self.count_spec() == 2),
            outcome matches Ok(record) ==> record == self.target(),
            outcome matches Err(error) ==> {
                &&& error.incomplete_spec() == self
                &&& error.operation_spec() == "try_from"@
                &&& error.object_id_spec()@ == decimal(self.id as nat)
            },
    {
        if self.is_complete() {
            Ok(
                Example {
                    id: self.id,
                    bard: self.bard.unwrap(),
                    food: self.food.unwrap(),
                    something_special: SOMETHING_SPECIAL,
                },
            )
        } else {
            let text = decimal_text(self.id as u64);
            Err(IncompleteError::from_parts("try_from", text, self))
        }
    }
}

impl<F: PatchableField, B: PatchableField> From<Example<F, B>> for PartialExample<F, B> {
    /// The complete partial of `record`.
    fn from(record: Example<F, B>) -> (partial: Self) {
        PartialExample { food: Some(record.food), bard: Some(record.bard), id: record.id }
    }
}

impl<F: PatchableField, B: PatchableField> FromSpecImpl<Example<F, B>> for PartialExample<F, B> {
    open spec fn obeys_from_spec() -> bool {
        true
    }

    open spec fn from_spec(record: Example<F, B>) -> Self {
        PartialExample { food: Some(record.food), bard: Some(record.bard), id: record.id }
    }
}

impl<F: PatchableField, B: PatchableField> Partial for PartialExample<F, B> {

}

impl<F: PatchableField, B: PatchableField> TryFrom<PartialExample<F, B>> for Example<F, B> {
    type Error = IncompleteError<PartialExample<F, B>>;

    /// Turns a complete partial into its record; see `try_into_target`.
    fn try_from(value: PartialExample<F, B>) -> (outcome: Result<Self, Self::Error>)
        ensures
            outcome.is_ok() == (value.count_spec() == 2),
            outcome matches Ok(record) ==> record == value.target(),
            outcome matches Err(error) ==> {
                &&& error.incomplete_spec() == value
                &&& error.operation_spec() == "try_from"@
                &&& error.object_id_spec()@ == decimal(value.id as nat)
            },
    {
        value.try_into_target()
    }
}

impl<F: PatchableField, B: PatchableField> TryFromSpecImpl<PartialExample<F, B>> for Example<F, B> {
    open spec fn obeys_try_from_spec() -> bool {
        false
    }

    open spec fn try_from_spec(value: PartialExample<F, B>) -> Result<Self, Self::Error> {
        arbitrary()
    }
}

impl<F: PatchableField, B: PatchableField> Base<()> for PartialExample<F, B> {
    type Target = Example<F, B>;

    const MAX_FIELDS: usize = 2;

    open spec fn max_fields_spec() -> Count {
        2
    }

    open spec fn count_spec(&self) -> Count {
        set_count(self.food) + set_count(self.bard)
    }

    open spec fn can_apply(&self, obj: &Example<F, B>) -> bool {
        true
    }

    open spec fn is_applied(&self, before: &Example<F, B>, after: &Example<F, B>, outcome: ()) -> bool {
        &&& after.id == before.id
        &&& after.something_special == before.something_special
        &&& overwrites(self.food, before.food, after.food)
        &&& overwrites(self.bard, before.bard, after.bard)
    }

    proof fn max_fields_is_the_constant() {
    }

    proof fn count_is_bounded(&self) {
    }

    fn is_complete(&self) -> (complete: bool) {
        self.food.is_some() && self.bard.is_some()
    }

    fn is_empty(&self) -> (empty: bool) {
        self.food.is_none() && self.bard.is_none()
    }

    fn count(&self) -> (n: u32) {
        let mut count: u32 = 0;
        if self.food.is_some() {
            count += 1;
        }
        if self.bard.is_some() {
            count += 1;
        }
        count
    }

    fn apply(&self, obj: &mut Example<F, B>) -> (outcome: ()) {
        if let Some(food) = &self.food {
            obj.food = food.copy();
        }
        if let Some(bard) = &self.bard {
            obj.bard = bard.copy();
        }
    }
}

/// A partial with both fields set is complete, and stands for the record
/// with the same identity and the same two values.
pub proof fn lemma_full_partial_is_complete<F: PatchableField, B: PatchableField>(
    id: u32,
    food: F,
    bard: B,
)
    ensures
        (PartialExample { food: Some(food), bard: Some(bard), id }).count_spec() == 2,
        (PartialExample { food: Some(food), bard: Some(bard), id }).target() == (Example {
            food,
            bard,
            something_special: SOMETHING_SPECIAL,
            id,
        }),
{
}

/// A partial that misses a field is not complete.
pub proof fn lemma_partial_with_gap_is_incomplete<F: PatchableField, B: PatchableField>(
    partial: PartialExample<F, B>,
)
    requires
        partial.food.is_none() || partial.bard.is_none(),
    ensures
        partial.count_spec() < 2,
{
}

/// The slot without a diff that contains no change.
pub open spec fn cleaned_slot<D: Diff>(slot: Option<D>) -> Option<D> {
    match slot {
        Some(diff) => if diff.contains_change_spec() {
            slot
        } else {
            None
        },
        None => None,
    }
}

/// Whether the slot is empty or its diff applies cleanly to `value`.
pub open spec fn slot_applies<D: Diff>(slot: Option<D>, value: D::Object) -> bool {
    match slot {
        Some(diff) => diff.applies_cleanly_spec(&value),
        None => true,
    }
}

/// Whether the diff of the slot, if there is one, can be applied to `value`
/// within the limits of the field's type.
pub open spec fn slot_can_apply<D: Diff>(slot: Option<D>, value: D::Object) -> bool {
    match slot {
        Some(diff) => diff.can_apply(&value),
        None => true,
    }
}

/// Whether `after` is what the slot makes of `before`: what its diff makes
/// of it, or `before` itself when the slot is empty.
pub open spec fn slot_applied<D: Diff>(slot: Option<D>, before: D::Object, after: D::Object) -> bool {
    match slot {
        Some(diff) => diff.is_applied(&before, &after),
        None => after == before,
    }
}

/// What the slot reports on `value`: the mismatch of its diff, when there is
/// one and it does not apply cleanly.
pub open spec fn slot_mismatches<D: Diff>(slot: Option<D>, value: D::Object) -> Seq<MismatchView> {
    match slot {
        Some(diff) => if diff.applies_cleanly_spec(&value) {
            Seq::empty()
        } else {
            seq![diff.mismatch_spec(&value)]
        },
        None => Seq::empty(),
    }
}

/// The mismatch that reports that a patch for the record `expected` met the
/// record `received`.
pub open spec fn identity_mismatch(expected: u32, received: u32) -> MismatchView {
    MismatchView {
        field_name: "id"@,
        expected: expected.debug_spec(),
        received: received.debug_spec(),
        mismatch_type: MismatchType::ObjectID,
    }
}

impl<DF: Diff, DB: Diff> PatchExample<DF, DB> {
    /// Whether `check` passes on `obj`.
    pub open spec fn passes(&self, obj: &Example<DF::Object, DB::Object>) -> bool {
        &&& self.id == obj.id
        &&& slot_applies(self.food, obj.food)
        &&& slot_applies(self.bard, obj.bard)
    }

    /// What a comparison of the identities reports: nothing when the patch
    /// is for `obj`, else the one mismatch of the two identities.
    pub open spec fn identity_found(&self, obj: &Example<DF::Object, DB::Object>) -> Seq<
        MismatchView,
    > {
        if self.id == obj.id {
            Seq::empty()
        } else {
            seq![identity_mismatch(self.id, obj.id)]
        }
    }

    /// What the two diffs report on their fields of `obj`: first `food`,
    /// then `bard`.
    pub open spec fn values_found(&self, obj: &Example<DF::Object, DB::Object>) -> Seq<
        MismatchView,
    > {
        slot_mismatches(self.food, obj.food) + slot_mismatches(self.bard, obj.bard)
    }

    /// Compares the identity of the patch with that of `obj`.
    fn compare_identity(&self, obj: &Example<DF::Object, DB::Object>) -> (outcome: Result<
        (),
        MultipleMismatchError,
    >)
        ensures
            reports(outcome, self.identity_found(obj)),
    {
        if self.id == obj.id {
            Ok(())
        } else {
            let mut errors = MultipleMismatchError::new();
            errors.add_error(
                MismatchError::from_parts(
                    "id",
                    self.id.debug_text(),
                    obj.id.debug_text(),
                    MismatchType::ObjectID,
                ),
            );
            assert(errors@ =~= self.identity_found(obj));
            Err(errors)
        }
    }

    /// Asks both diffs whether they apply cleanly to their field of `obj`.
    fn compare_values(&self, obj: &Example<DF::Object, DB::Object>) -> (outcome: Result<
        (),
        MultipleMismatchError,
    >)
        ensures
            reports(outcome, self.values_found(obj)),
    {
        let mut errors = MultipleMismatchError::new();
        if let Some(diff) = &self.food {
            if let Err(e) = diff.applies_cleanly(&obj.food) {
                errors.add_error(e);
            }
        }
        assert(errors@ =~= slot_mismatches(self.food, obj.food));
        if let Some(diff) = &self.bard {
            if let Err(e) = diff.applies_cleanly(&obj.bard) {
                errors.add_error(e);
            }
        }
        assert(errors@ =~= self.values_found(obj));
        if errors.is_error_free() {
            Ok(())
        } else {
            Err(errors)
        }
    }

    /// The patch for the record `id` that changes nothing.
    pub fn new(id: u32) -> (patch: Self)
        ensures
            patch == (PatchExample::<DF, DB> { id, food: None, bard: None }),
    {
        PatchExample { id, food: None, bard: None }
    }

    /// The patch that leads from the record `old` to the record `new`: one
    /// diff for each of the two fields, for the identity of `old`.
    pub fn from_snapshots(
        old: &Example<DF::Object, DB::Object>,
        new: &Example<DF::Object, DB::Object>,
    ) -> (patch: Self)
        requires
            DF::can_record(&old.food, &new.food),
            DB::can_record(&old.bard, &new.bard),
        ensures
            patch.id == old.id,
            patch.food matches Some(diff) && diff.records(&old.food, &new.food),
            patch.bard matches Some(diff) && diff.records(&old.bard, &new.bard),
            patch.passes(old),
    {
        let food = DF::new(&old.food, &new.food);
        let bard = DB::new(&old.bard, &new.bard);
        proof {
            food.applies_to_its_old_value(&old.food, &new.food);
            bard.applies_to_its_old_value(&old.bard, &new.bard);
        }
        PatchExample { id: old.id, food: Some(food), bard: Some(bard) }
    }
}

impl<DF: Diff, DB: Diff> Base<Result<(), MultipleMismatchError>> for PatchExample<DF, DB> {
    type Target = Example<DF::Object, DB::Object>;

    const MAX_FIELDS: usize = 2;

    open spec fn max_fields_spec() -> Count {
        2
    }

    open spec fn count_spec(&self) -> Count {
        set_count(self.food) + set_count(self.bard)
    }

    open spec fn can_apply(&self, obj: &Self::Target) -> bool {
        slot_can_apply(self.food, obj.food) && slot_can_apply(self.bard, obj.bard)
    }

    open spec fn is_applied(
        &self,
        before: &Self::Target,
        after: &Self::Target,
        outcome: Result<(), MultipleMismatchError>,
    ) -> bool {
        &&& outcome.is_ok() == self.passes(before)
        &&& outcome.is_ok() ==> {
            &&& after.id == before.id
            &&& after.something_special == before.something_special
            &&& slot_applied(self.food, before.food, after.food)
            &&& slot_applied(self.bard, before.bard, after.bard)
        }
        &&& outcome.is_err() ==> {
            &&& *after == *before
            &&& reported(outcome) == self.identity_found(before) + self.values_found(before)
        }
    }

    proof fn max_fields_is_the_constant() {
    }

    proof fn count_is_bounded(&self) {
    }

    fn is_complete(&self) -> (complete: bool) {
        self.food.is_some() && self.bard.is_some()
    }

    fn is_empty(&self) -> (empty: bool) {
        self.food.is_none() && self.bard.is_none()
    }

    fn count(&self) -> (n: u32) {
        let mut count: u32 = 0;
        if self.food.is_some() {
            count += 1;
        }
        if self.bard.is_some() {
            count += 1;
        }
        count
    }

    fn apply(&self, obj: &mut Self::Target) -> (outcome: Result<(), MultipleMismatchError>) {
        let e1 = self.compare_identity(obj);
        let e2 = self.compare_values(obj);
        match combine(e1, e2) {
            Err(errors) => Err(errors),
            Ok(()) => {
                if let Some(diff) = &self.food {
                    let _ = diff.apply_into(&mut obj.food);
                }
                if let Some(diff) = &self.bard {
                    let _ = diff.apply_into(&mut obj.bard);
                }
                Ok(())
            },
        }
    }
}

impl<DF: Diff, DB: Diff> Patch for PatchExample<DF, DB> {
    open spec fn cleaned(&self) -> Self {
        PatchExample { id: self.id, food: cleaned_slot(self.food), bard: cleaned_slot(self.bard) }
    }

    open spec fn identity_mismatches(&self, obj: &Self::Target) -> Mismatches {
        self.identity_found(obj)
    }

    open spec fn value_mismatches(&self, obj: &Self::Target) -> Mismatches {
        self.values_found(obj)
    }

    open spec fn same_target_spec(&self, other: &Self) -> bool {
        self.id == other.id
    }

    proof fn cleaned_is_clean(&self) {
    }

    proof fn cleaned_unsets_slots(&self) {
    }

    proof fn identity_mismatches_kind(&self, obj: &Self::Target) {
    }

    proof fn value_mismatches_kind(&self, obj: &Self::Target) {
        if let Some(diff) = self.food {
            diff.mismatch_is_with_old_value(&obj.food);
        }
        if let Some(diff) = self.bard {
            diff.mismatch_is_with_old_value(&obj.bard);
        }
    }

    fn cleanup(&mut self) -> (removed: bool) {
        let mut removed = false;
        let drop_food = match &self.food {
            Some(diff) => !diff.contains_change(),
            None => false,
        };
        if drop_food {
            self.food = None;
            removed = true;
        }
        let drop_bard = match &self.bard {
            Some(diff) => !diff.contains_change(),
            None => false,
        };
        if drop_bard {
            self.bard = None;
            removed = true;
        }
        removed
    }

    fn is_correct_target(&self, obj: &Self::Target) -> (outcome: Result<(), MultipleMismatchError>) {
        self.compare_identity(obj)
    }

    fn is_same_target(&self, other: &Self) -> (same: bool) {
        self.id == other.id
    }

    fn can_apply_cleanly(&self, obj: &Self::Target) -> (outcome: Result<(), MultipleMismatchError>) {
        self.compare_values(obj)
    }
}

} // verus!
