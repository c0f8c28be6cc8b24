//! What holds of the diffs of each of the two variants, beyond what the
//! `Diff` contract asks of every variant.

use crate::diff::copy::CopyDiff;
use crate::diff::numeric_distance::{Numeric, NumericDistanceDiff};
use crate::diff::traits::Diff;
use crate::patchable::PatchableField;
use vstd::prelude::*;

verus! {

/// A snapshot diff made for the step from `a` to `b` applies cleanly to `a`,
/// and does not apply cleanly to any `c` that differs from `a`.
pub proof fn lemma_snapshot_applies_to_its_old_value_only<T>(diff: CopyDiff<T>, a: T, b: T, c: T) where
    T: Clone + PatchableField,

    requires
        diff.records(&a, &b),
    ensures
        diff.applies_cleanly_spec(&a),
        !c.compare_spec(&a) ==> !diff.applies_cleanly_spec(&c),
{
    let old = diff.old_spec();
    diff.applies_to_its_old_value(&a, &b);
    if old.compare_spec(&c) {
        T::compare_transitive(&a, &old, &c);
        T::compare_symmetric(&a, &c);
    }
}

/// A snapshot diff made for the step from `a` to `b` contains a change
/// exactly when `a` and `b` differ.
pub proof fn lemma_snapshot_change_iff_values_differ<T>(diff: CopyDiff<T>, a: T, b: T) where
    T: Clone + PatchableField,

    requires
        diff.records(&a, &b),
    ensures
        diff.contains_change_spec() == !a.compare_spec(&b),
{
    let old = diff.old_spec();
    let new = diff.new_spec();
    T::compare_symmetric(&a, &old);
    T::compare_symmetric(&b, &new);
    if new.compare_spec(&old) {
        T::compare_transitive(&b, &new, &old);
        T::compare_transitive(&b, &old, &a);
        T::compare_symmetric(&b, &a);
    }
    if a.compare_spec(&b) {
        T::compare_symmetric(&a, &b);
        T::compare_transitive(&new, &b, &a);
        T::compare_transitive(&new, &a, &old);
    }
}

/// Two snapshot diffs that form a chain, from `a` to `b` and from `b` to `c`,
/// merge, and what comes of it stands for the step from `a` to `c`, as the
/// diff made for that step does.
pub proof fn lemma_snapshot_chain_merges<T>(
    first: CopyDiff<T>,
    second: CopyDiff<T>,
    merged: CopyDiff<T>,
    direct: CopyDiff<T>,
    a: T,
    b: T,
    c: T,
) where T: Clone + PatchableField
    requires
        first.records(&a, &b),
        second.records(&b, &c),
        first.is_merged(&second, &merged),
        direct.records(&a, &c),
    ensures
        first.merges(&second),
        merged.records(&a, &c),
        merged.old_spec().compare_spec(&direct.old_spec()),
        merged.new_spec().compare_spec(&direct.new_spec()),
{
    first.chain_merges(&second, &merged, &a, &b, &c);
    T::compare_symmetric(&a, &merged.old_spec());
    T::compare_transitive(&merged.old_spec(), &a, &direct.old_spec());
    T::compare_symmetric(&c, &merged.new_spec());
    T::compare_transitive(&merged.new_spec(), &c, &direct.new_spec());
}

/// Two snapshot diffs that do not form a chain, the second starting at an `x`
/// that differs from the `b` at which the first ends, do not merge.
pub proof fn lemma_snapshot_broken_chain_does_not_merge<T>(
    first: CopyDiff<T>,
    second: CopyDiff<T>,
    a: T,
    b: T,
    x: T,
    c: T,
) where T: Clone + PatchableField
    requires
        first.records(&a, &b),
        second.records(&x, &c),
        !x.compare_spec(&b),
    ensures
        !first.merges(&second),
{
    if second.old_spec().compare_spec(&first.new_spec()) {
        T::compare_symmetric(&b, &first.new_spec());
        T::compare_transitive(&x, &second.old_spec(), &first.new_spec());
        T::compare_transitive(&x, &first.new_spec(), &b);
    }
}

/// Applying a snapshot diff made for the step from `a` to `b` leaves a value
/// that compares equal to `b`, whatever the field held.
pub proof fn lemma_snapshot_apply_reaches_new_value<T>(
    diff: CopyDiff<T>,
    a: T,
    b: T,
    before: T,
    after: T,
) where T: Clone + PatchableField
    requires
        diff.records(&a, &b),
        diff.is_applied(&before, &after),
    ensures
        b.compare_spec(&after),
{
    T::compare_transitive(&b, &diff.new_spec(), &after);
}

/// Applying a distance diff made for the step from `a` to `b` to `a` gives
/// `b`.
pub proof fn lemma_distance_apply_reaches_new_value<T: Numeric>(
    diff: NumericDistanceDiff<T>,
    a: T,
    b: T,
    after: T,
)
    requires
        diff.records(&a, &b),
        diff.is_applied(&a, &after),
    ensures
        after == b,
{
    T::advance_by_distance(&a, &b, &diff.difference_spec(), &after);
}

/// A distance diff made for the step from `a` to `b` contains a change
/// exactly when `a` and `b` differ; one made for the step from a value to
/// itself contains none.
pub proof fn lemma_distance_change_iff_values_differ<T: Numeric>(
    diff: NumericDistanceDiff<T>,
    a: T,
    b: T,
)
    requires
        diff.records(&a, &b),
    ensures
        diff.contains_change_spec() == (a != b),
{
    T::distance_zero_iff_same(&a, &b, &diff.difference_spec());
}

/// Merging three distance diffs gives the same distance whichever two are
/// merged first.
pub proof fn lemma_distance_merge_associative<T: Numeric>(
    d1: NumericDistanceDiff<T>,
    d2: NumericDistanceDiff<T>,
    d3: NumericDistanceDiff<T>,
    d12: NumericDistanceDiff<T>,
    d23: NumericDistanceDiff<T>,
    left: NumericDistanceDiff<T>,
    right: NumericDistanceDiff<T>,
)
    requires
        d1.is_merged(&d2, &d12),
        d12.is_merged(&d3, &left),
        d2.is_merged(&d3, &d23),
        d1.is_merged(&d23, &right),
    ensures
        left.difference_spec() == right.difference_spec(),
{
    T::join_associative(
        &d1.difference_spec(),
        &d2.difference_spec(),
        &d3.difference_spec(),
        &d12.difference_spec(),
        &d23.difference_spec(),
        &left.difference_spec(),
        &right.difference_spec(),
    );
}

} // verus!
