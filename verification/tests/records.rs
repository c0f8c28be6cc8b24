use derive_patch::diff::{CopyDiff, Diff, NumericDistanceDiff};
use derive_patch::example::{Example, PartialExample, PatchExample};
use derive_patch::mismatch::{IncompleteError, MismatchError, MismatchType, MultipleMismatchError};
use derive_patch::patchable::PatchableField;
use derive_patch::text::Text;
use derive_patch::traits::{Base, Patch};

#[derive(Clone, PartialEq)]
struct Food(f64);

impl std::fmt::Debug for Food {
    fn fmt(&self, f: &mut std::fmt::Formatter<'_>) -> std::fmt::Result {
        std::fmt::Debug::fmt(&self.0, f)
    }
}

impl PatchableField for Food {
    fn debug_spec(&self) -> Text {
        unreachable!()
    }

    fn debug_text(&self) -> String {
        format!("{:?}", self)
    }

    fn compare_spec(&self, rhs: &Self) -> bool {
        self.0 == rhs.0
    }

    fn compare_reflexive(_a: &Self) {}

    fn compare_symmetric(_a: &Self, _b: &Self) {}

    fn compare_transitive(_a: &Self, _b: &Self, _c: &Self) {}

    fn compare(&self, rhs: &Self) -> bool {
        self.0 == rhs.0
    }

    fn copy(&self) -> Self {
        self.clone()
    }
}

type Bard = Option<String>;

type Record = Example<Food, Bard>;

type FoodPatch = PatchExample<CopyDiff<Food>, CopyDiff<Bard>>;

fn target(id: u32, food: f64) -> Record {
    Example { id, food: Food(food), bard: Some(String::from("x")), something_special: 7 }
}

fn food_patch(id: u32, old: f64, new: f64) -> FoodPatch {
    PatchExample { id, food: Some(CopyDiff::new(&Food(old), &Food(new))), bard: None }
}

fn one_error(error: MismatchError) -> MultipleMismatchError {
    let mut errors = MultipleMismatchError::new();
    errors.add_error(error);
    errors
}

#[test]
fn patch_applies_and_then_conflicts_with_its_own_result() {
    let mut record = target(1, 1.5);
    let patch = food_patch(1, 1.5, 2.5);
    assert_eq!(patch.check(&record), Ok(()));
    assert_eq!(patch.apply(&mut record), Ok(()));
    assert_eq!(record, target(1, 2.5));
    let stale = one_error(MismatchError::new("food", "1.5", "2.5", MismatchType::PatchOldValue));
    assert_eq!(patch.check(&record), Err(stale.clone()));
    assert_eq!(patch.apply(&mut record), Err(stale));
    assert_eq!(record, target(1, 2.5));
}

#[test]
fn patch_for_another_record_is_rejected() {
    let record = target(2, 1.5);
    let patch = food_patch(1, 1.5, 2.5);
    let wrong = one_error(MismatchError::new("id", "1", "2", MismatchType::ObjectID));
    assert_eq!(patch.is_correct_target(&record), Err(wrong.clone()));
    assert_eq!(patch.can_apply_cleanly(&record), Ok(()));
    assert_eq!(patch.check(&record), Err(wrong));
}

#[test]
fn check_reports_identity_before_values() {
    let mut record = target(4294967295, 9.0);
    let patch: FoodPatch = PatchExample {
        id: 10,
        food: Some(CopyDiff::new(&Food(1.5), &Food(2.5))),
        bard: Some(CopyDiff::new(&None, &Some(String::from("y")))),
    };
    let mut all = MultipleMismatchError::new();
    all.add_error(MismatchError::new("id", "10", "4294967295", MismatchType::ObjectID));
    all.add_error(MismatchError::new("food", "1.5", "9.0", MismatchType::PatchOldValue));
    all.add_error(MismatchError::new("food", "None", "Some(\"x\")", MismatchType::PatchOldValue));
    assert_eq!(patch.check(&record), Err(all.clone()));
    assert_eq!(patch.apply(&mut record), Err(all));
    assert_eq!(record, target(4294967295, 9.0));
}

#[test]
fn apply_writes_every_set_slot() {
    let old = target(3, 1.0);
    let new = Example { id: 3, food: Food(4.0), bard: None, something_special: 7 };
    let patch: FoodPatch = PatchExample::from_snapshots(&old, &new);
    assert_eq!(patch.count(), 2);
    assert!(patch.is_complete());
    let mut record = target(3, 1.0);
    assert_eq!(patch.apply(&mut record), Ok(()));
    assert_eq!(record, new);
}

#[test]
fn patch_with_distance_slots() {
    let mut record: Example<i64, u8> = Example { id: 1, food: 100, bard: 5, something_special: 0 };
    let patch: PatchExample<NumericDistanceDiff<i64>, NumericDistanceDiff<u8>> = PatchExample {
        id: 1,
        food: Some(NumericDistanceDiff::new(&10, &7)),
        bard: Some(NumericDistanceDiff::new(&0, &0)),
    };
    assert_eq!(patch.check(&record), Ok(()));
    assert_eq!(patch.apply(&mut record), Ok(()));
    assert_eq!(record, Example { id: 1, food: 97, bard: 5, something_special: 0 });
}

#[test]
fn cleanup_drops_empty_diffs_once() {
    let mut patch: FoodPatch = PatchExample {
        id: 1,
        food: Some(CopyDiff::new(&Food(1.5), &Food(1.5))),
        bard: Some(CopyDiff::new(&None, &Some(String::from("y")))),
    };
    assert!(patch.cleanup());
    let cleaned: FoodPatch = PatchExample {
        id: 1,
        food: None,
        bard: Some(CopyDiff::new(&None, &Some(String::from("y")))),
    };
    assert_eq!(patch, cleaned);
    assert!(!patch.cleanup());
    assert_eq!(patch, cleaned);
}

#[test]
fn cleanup_of_a_patch_without_empty_diffs() {
    let mut patch = food_patch(1, 1.5, 2.5);
    assert!(!patch.cleanup());
    assert_eq!(patch, food_patch(1, 1.5, 2.5));
    let mut empty: FoodPatch = PatchExample::new(1);
    assert!(!empty.cleanup());
    assert!(empty.is_empty());
}

#[test]
fn patch_counts_its_slots() {
    let empty: FoodPatch = PatchExample::new(1);
    assert!(empty.is_empty());
    assert!(!empty.is_complete());
    assert_eq!(empty.count(), 0);
    let one = food_patch(1, 1.5, 2.5);
    assert!(!one.is_empty());
    assert!(!one.is_complete());
    assert_eq!(one.count(), 1);
    assert_eq!(<FoodPatch as Base<Result<(), MultipleMismatchError>>>::MAX_FIELDS, 2);
}

#[test]
fn same_target_looks_at_the_identity_only() {
    assert!(food_patch(1, 1.5, 2.5).is_same_target(&food_patch(1, 7.0, 8.0)));
    assert!(!food_patch(1, 1.5, 2.5).is_same_target(&food_patch(2, 1.5, 2.5)));
}

#[test]
fn complete_partial_converts_into_its_target() {
    let partial = PartialExample::with_arguments(5, Some(Food(1.5)), Some(Some(String::from("x"))));
    assert!(partial.is_complete());
    assert!(!partial.is_empty());
    assert_eq!(partial.count(), 2);
    let direct = Example {
        id: 5,
        food: Food(1.5),
        bard: Some(String::from("x")),
        something_special: 42,
    };
    assert_eq!(partial.build(), Ok(direct.clone()));
    assert_eq!(Record::try_from(partial.clone()), Ok(direct.clone()));
    assert_eq!(partial.try_into_target(), Ok(direct));
}

#[test]
fn incomplete_partial_comes_back_in_the_error() {
    let no_bard: PartialExample<Food, Bard> = PartialExample::with_arguments(5, Some(Food(1.5)), None);
    assert!(!no_bard.is_complete());
    assert_eq!(no_bard.count(), 1);
    assert_eq!(no_bard.build(), Err(()));
    assert_eq!(
        Record::try_from(no_bard.clone()),
        Err(IncompleteError::new("try_from", "5", no_bard.clone()))
    );
    let no_food: PartialExample<Food, Bard> = PartialExample::with_arguments(12, None, Some(None));
    let error = no_food.clone().try_into_target().unwrap_err();
    assert_eq!(error.operation(), "try_from");
    assert_eq!(error.object_id(), "12");
    assert_eq!(error.incomplete(), &no_food);
    let nothing: PartialExample<Food, Bard> = PartialExample::new(0);
    assert!(nothing.is_empty());
    assert_eq!(nothing.count(), 0);
    assert_eq!(nothing.clone().try_into_target().unwrap_err().into_incomplete(), nothing);
}

#[test]
fn partial_from_a_record_is_complete() {
    let record = target(8, 3.0);
    let partial = PartialExample::from(record);
    assert!(partial.is_complete());
    assert_eq!(
        partial,
        PartialExample::with_arguments(8, Some(Food(3.0)), Some(Some(String::from("x"))))
    );
    assert_eq!(<PartialExample<Food, Bard> as Base<()>>::MAX_FIELDS, 2);
}

#[test]
fn partial_apply_overwrites_the_set_fields() {
    let mut record = target(1, 1.5);
    let partial: PartialExample<Food, Bard> = PartialExample::with_arguments(9, Some(Food(3.5)), None);
    partial.apply(&mut record);
    assert_eq!(record, target(1, 3.5));
}

#[test]
fn partial_merge_into_overwrites_the_set_fields() {
    let source: PartialExample<Food, Bard> = PartialExample::with_arguments(1, None, Some(None));
    let mut sink: PartialExample<Food, Bard> =
        PartialExample::with_arguments(2, Some(Food(1.0)), Some(Some(String::from("x"))));
    source.merge_into(&mut sink);
    assert_eq!(sink, PartialExample::with_arguments(2, Some(Food(1.0)), Some(None)));
}

#[test]
fn partial_equality_on_the_fields_that_both_hold() {
    let a: PartialExample<Food, Bard> = PartialExample::with_arguments(1, Some(Food(1.0)), None);
    let b: PartialExample<Food, Bard> =
        PartialExample::with_arguments(2, Some(Food(1.0)), Some(Some(String::from("x"))));
    let c: PartialExample<Food, Bard> = PartialExample::with_arguments(3, Some(Food(2.0)), Some(None));
    let d: PartialExample<Food, Bard> = PartialExample::new(4);
    assert!(a.is_partial_equal_existing(&b));
    assert!(!a.is_partial_equal_existing(&c));
    assert!(!b.is_partial_equal_existing(&c));
    assert!(d.is_partial_equal_existing(&a));
    assert!(d.is_partial_equal_existing(&d));
}
