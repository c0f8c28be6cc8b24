use derive_patch::mismatch::{IncompleteError, MismatchError, MismatchType, MultipleMismatchError};
use derive_patch::traits::combine;

fn assert_sync<T: Sync>() {}

fn assert_send<T: Send>() {}

#[derive(Debug)]
struct DummyIncompletable {}

fn sample(n: u8) -> MismatchError {
    MismatchError::new("field", format!("e{}", n), format!("r{}", n), MismatchType::PatchOldValue)
}

#[test]
fn mismatch_test_sync() {
    assert_sync::<MultipleMismatchError>();
    assert_sync::<MismatchType>();
    assert_sync::<IncompleteError<DummyIncompletable>>();
}

#[test]
fn mismatch_test_send() {
    assert_send::<MultipleMismatchError>();
    assert_send::<MismatchType>();
    assert_send::<IncompleteError<DummyIncompletable>>();
}

#[test]
fn mismatch_error_keeps_its_parts() {
    let e = MismatchError::new("age", "1", String::from("2"), MismatchType::ObjectID);
    assert_eq!(e.name(), "age");
    assert_eq!(e.expected, "1");
    assert_eq!(e.received, "2");
    assert_eq!(e.mismatch_type(), MismatchType::ObjectID);
    let same = MismatchError::from_parts(
        "age",
        String::from("1"),
        String::from("2"),
        MismatchType::ObjectID,
    );
    assert_eq!(e, same);
    assert_eq!(e.clone(), e);
}

#[test]
fn mismatch_error_line() {
    let e = MismatchError::new("age", "1", "2", MismatchType::ObjectID);
    assert_eq!(e.to_string(), "Object id didn't match patch id - field age: expected 1, got 2\n");
    let f = MismatchError::new("food", "1.5", "2.5", MismatchType::PatchOldValue);
    assert_eq!(
        f.to_string(),
        "Current object valie did not match old patch value - field food: expected 1.5, got 2.5\n"
    );
}

#[test]
fn mismatch_type_sentences() {
    assert_eq!(MismatchType::ObjectID.to_string(), "Object id didn't match patch id");
    assert_eq!(
        MismatchType::PatchOldValue.to_string(),
        "Current object valie did not match old patch value"
    );
    assert!(MismatchType::ObjectID < MismatchType::PatchOldValue);
}

#[test]
fn new_aggregate_is_error_free() {
    let errors = MultipleMismatchError::new();
    assert!(errors.is_error_free());
    assert!(!errors.has_errors());
    assert_eq!(errors.len(), 0);
    assert_eq!(errors, MultipleMismatchError::default());
    assert_eq!(errors.to_string(), "0 mismatches:\n");
}

#[test]
fn add_error_appends() {
    let mut errors = MultipleMismatchError::new();
    errors.add_error(sample(1));
    assert!(!errors.is_error_free());
    assert!(errors.has_errors());
    assert_eq!(errors.len(), 1);
    errors.add_error(sample(2));
    assert_eq!(errors.len(), 2);
    let mut other_order = MultipleMismatchError::new();
    other_order.add_error(sample(2));
    other_order.add_error(sample(1));
    assert_ne!(errors, other_order);
}

#[test]
fn merge_concatenates_without_deduplication() {
    let mut left = MultipleMismatchError::new();
    left.add_error(sample(1));
    left.add_error(sample(2));
    let mut right = MultipleMismatchError::new();
    right.add_error(sample(2));
    right.add_error(sample(3));
    left.merge(&right);
    assert_eq!(left.len(), 4);
    assert_eq!(right.len(), 2);
    let mut expected = MultipleMismatchError::new();
    expected.add_error(sample(1));
    expected.add_error(sample(2));
    expected.add_error(sample(2));
    expected.add_error(sample(3));
    assert_eq!(left, expected);
}

#[test]
fn merge_with_empty_sides() {
    let mut left = MultipleMismatchError::new();
    let mut right = MultipleMismatchError::new();
    right.add_error(sample(7));
    left.merge(&right);
    assert_eq!(left, right);
    left.merge(&MultipleMismatchError::new());
    assert_eq!(left, right);
}

#[test]
fn aggregate_report() {
    let mut errors = MultipleMismatchError::new();
    errors.add_error(MismatchError::new("id", "1", "2", MismatchType::ObjectID));
    errors.add_error(MismatchError::new("food", "1.5", "2.5", MismatchType::PatchOldValue));
    assert_eq!(
        errors.to_string(),
        "2 mismatches:\nObject id didn't match patch id - field id: expected 1, got 2\n\n\
         Current object valie did not match old patch value - field food: expected 1.5, got 2.5\n\n"
    );
}

#[test]
fn aggregate_report_counts_in_decimal() {
    let mut errors = MultipleMismatchError::new();
    let mut lines = String::new();
    for n in 0..12u8 {
        errors.add_error(sample(n));
        lines.push_str(&sample(n).to_string());
        lines.push('\n');
    }
    assert_eq!(errors.to_string(), format!("12 mismatches:\n{}", lines));
}

#[test]
fn incomplete_error_keeps_its_parts() {
    let e = IncompleteError::new("build", "17", vec![1u8, 2]);
    assert_eq!(e.operation(), "build");
    assert_eq!(e.object_id(), "17");
    assert_eq!(e.incomplete(), &vec![1u8, 2]);
    assert_eq!(e, IncompleteError::from_parts("build", String::from("17"), vec![1u8, 2]));
    assert_eq!(e.into_incomplete(), vec![1u8, 2]);
}

#[test]
fn incomplete_error_report() {
    let e = IncompleteError::new("build", String::from("17"), DummyIncompletable {});
    assert_eq!(
        e.to_string(),
        "IncompleteError: `build` failed for 17.\nData:\nDummyIncompletable"
    );
    assert_eq!(e.to_string_with("xyz"), "IncompleteError: `build` failed for 17.\nData:\nxyz");
}

#[test]
fn combine_joins_both_outcomes() {
    let mut first = MultipleMismatchError::new();
    first.add_error(sample(1));
    let mut second = MultipleMismatchError::new();
    second.add_error(sample(2));
    let mut both = MultipleMismatchError::new();
    both.add_error(sample(1));
    both.add_error(sample(2));
    assert_eq!(combine(Ok(()), Ok(())), Ok(()));
    assert_eq!(combine(Err(first.clone()), Ok(())), Err(first.clone()));
    assert_eq!(combine(Ok(()), Err(second.clone())), Err(second.clone()));
    assert_eq!(combine(Err(first), Err(second)), Err(both));
}
