use crate::diff::traits::Diff;
use crate::mismatch::{MismatchError, MismatchType, MismatchView};
use vstd::prelude::*;

verus! {

/// Calls `num::Zero::is_zero` on an `i128`. The crate implements it for the
/// primitive integers as the comparison with the literal 0.
#[verifier::external_body]
fn signed_is_zero(value: i128) -> (zero: bool)
    ensures
        zero == (value == 0),
{
    num::Zero::is_zero(&value)
}

/// Calls `num::Zero::is_zero` on a `u128`. The crate implements it for the
/// primitive integers as the comparison with the literal 0.
#[verifier::external_body]
fn unsigned_is_zero(value: u128) -> (zero: bool)
    ensures
        zero == (value == 0),
{
    num::Zero::is_zero(&value)
}

/// A field type whose changes can be kept as a distance: two values can be
/// subtracted, a distance can be added back to a value, two distances can be
/// added, and a distance can be tested for zero.
///
/// Each operation has a spec function that says when its result fits into
/// the type that receives it, and one that says what the result is. For the
/// primitive integers these speak of the mathematical integers.
pub trait Numeric: Copy {
    /// What the subtraction of two values gives.
    type Distance: Copy;

    /// Whether `new - old` fits into `Distance`.
    spec fn spans(old: &Self, new: &Self) -> bool;

    /// Whether `d` is `new - old`.
    spec fn is_distance(old: &Self, new: &Self, d: &Self::Distance) -> bool;

    /// Whether `self + d` fits into `Self`.
    spec fn reaches(&self, d: &Self::Distance) -> bool;

    /// Whether `moved` is `self + d`.
    spec fn is_advanced(&self, d: &Self::Distance, moved: &Self) -> bool;

    /// Whether `a + b` fits into `Distance`.
    spec fn joins(a: &Self::Distance, b: &Self::Distance) -> bool;

    /// Whether `sum` is `a + b`.
    spec fn is_joined(a: &Self::Distance, b: &Self::Distance, sum: &Self::Distance) -> bool;

    /// Whether the distance is zero.
    spec fn is_zero_spec(d: &Self::Distance) -> bool;

    /// The distance between two values is zero exactly when they are equal.
    proof fn distance_zero_iff_same(old: &Self, new: &Self, d: &Self::Distance)
        requires
            Self::is_distance(old, new, d),
        ensures
            Self::is_zero_spec(d) == (old == new),
    ;

    /// The distance from `a` to `b` and the distance from `b` to `c` add up
    /// to the distance from `a` to `c`.
    proof fn distances_chain(
        a: &Self,
        b: &Self,
        c: &Self,
        ab: &Self::Distance,
        bc: &Self::Distance,
        ac: &Self::Distance,
    )
        requires
            Self::is_distance(a, b, ab),
            Self::is_distance(b, c, bc),
            Self::is_joined(ab, bc, ac),
        ensures
            Self::is_distance(a, c, ac),
    ;

    /// Adding the distance from `old` to `new` to `old` gives `new`.
    proof fn advance_by_distance(old: &Self, new: &Self, d: &Self::Distance, moved: &Self)
        requires
            Self::is_distance(old, new, d),
            old.is_advanced(d, moved),
        ensures
            moved == new,
    ;

    /// Adding three distances gives the same whichever two are added first.
    proof fn join_associative(
        a: &Self::Distance,
        b: &Self::Distance,
        c: &Self::Distance,
        ab: &Self::Distance,
        bc: &Self::Distance,
        left: &Self::Distance,
        right: &Self::Distance,
    )
        requires
            Self::is_joined(a, b, ab),
            Self::is_joined(ab, c, left),
            Self::is_joined(b, c, bc),
            Self::is_joined(a, bc, right),
        ensures
            left == right,
    ;

    /// `new - old`.
    fn distance(old: &Self, new: &Self) -> (d: Self::Distance)
        requires
            Self::spans(old, new),
        ensures
            Self::is_distance(old, new, &d),
    ;

    /// `self + d`.
    fn advance(&self, d: &Self::Distance) -> (moved: Self)
        requires
            self.reaches(d),
        ensures
            self.is_advanced(d, &moved),
    ;

    /// `a + b`.
    fn join(a: &Self::Distance, b: &Self::Distance) -> (sum: Self::Distance)
        requires
            Self::joins(a, b),
        ensures
            Self::is_joined(a, b, &sum),
    ;

    /// Whether the distance is zero.
    fn is_zero(d: &Self::Distance) -> (zero: bool)
        ensures
            zero == Self::is_zero_spec(d),
    ;
}

impl Numeric for u8 {
    type Distance = u8;

    open spec fn spans(old: &Self, new: &Self) -> bool {
        u8::MIN <= *new - *old <= u8::MAX
    }

    open spec fn is_distance(old: &Self, new: &Self, d: &u8) -> bool {
        *d == *new - *old
    }

    open spec fn reaches(&self, d: &u8) -> bool {
        u8::MIN <= *self + *d <= u8::MAX
    }

    open spec fn is_advanced(&self, d: &u8, moved: &Self) -> bool {
        *moved == *self + *d
    }

    open spec fn joins(a: &u8, b: &u8) -> bool {
        u8::MIN <= *a + *b <= u8::MAX
    }

    open spec fn is_joined(a: &u8, b: &u8, sum: &u8) -> bool {
        *sum == *a + *b
    }

    open spec fn is_zero_spec(d: &u8) -> bool {
        *d == 0
    }

    proof fn distance_zero_iff_same(old: &Self, new: &Self, d: &u8) {
    }

    proof fn distances_chain(a: &Self, b: &Self, c: &Self, ab: &u8, bc: &u8, ac: &u8) {
    }

    proof fn advance_by_distance(old: &Self, new: &Self, d: &u8, moved: &Self) {
    }

    proof fn join_associative(
        a: &u8,
        b: &u8,
        c: &u8,
        ab: &u8,
        bc: &u8,
        left: &u8,
        right: &u8,
    ) {
    }

    fn distance(old: &Self, new: &Self) -> (d: u8) {
        *new - *old
    }

    fn advance(&self, d: &u8) -> (moved: Self) {
        *self + *d
    }

    fn join(a: &u8, b: &u8) -> (sum: u8) {
        *a + *b
    }

    fn is_zero(d: &u8) -> (zero: bool) {
        unsigned_is_zero(*d as u128)
    }
}

impl Numeric for i8 {
    type Distance = i8;

    open spec fn spans(old: &Self, new: &Self) -> bool {
        i8::MIN <= *new - *old <= i8::MAX
    }

    open spec fn is_distance(old: &Self, new: &Self, d: &i8) -> bool {
        *d == *new - *old
    }

    open spec fn reaches(&self, d: &i8) -> bool {
        i8::MIN <= *self + *d <= i8::MAX
    }

    open spec fn is_advanced(&self, d: &i8, moved: &Self) -> bool {
        *moved == *self + *d
    }

    open spec fn joins(a: &i8, b: &i8) -> bool {
        i8::MIN <= *a + *b <= i8::MAX
    }

    open spec fn is_joined(a: &i8, b: &i8, sum: &i8) -> bool {
        *sum == *a + *b
    }

    open spec fn is_zero_spec(d: &i8) -> bool {
        *d == 0
    }

    proof fn distance_zero_iff_same(old: &Self, new: &Self, d: &i8) {
    }

    proof fn distances_chain(a: &Self, b: &Self, c: &Self, ab: &i8, bc: &i8, ac: &i8) {
    }

    proof fn advance_by_distance(old: &Self, new: &Self, d: &i8, moved: &Self) {
    }

    proof fn join_associative(
        a: &i8,
        b: &i8,
        c: &i8,
        ab: &i8,
        bc: &i8,
        left: &i8,
        right: &i8,
    ) {
    }

    fn distance(old: &Self, new: &Self) -> (d: i8) {
        *new - *old
    }

    fn advance(&self, d: &i8) -> (moved: Self) {
        *self + *d
    }

    fn join(a: &i8, b: &i8) -> (sum: i8) {
        *a + *b
    }

    fn is_zero(d: &i8) -> (zero: bool) {
        signed_is_zero(*d as i128)
    }
}

impl Numeric for u16 {
    type Distance = u16;

    open spec fn spans(old: &Self, new: &Self) -> bool {
        u16::MIN <= *new - *old <= u16::MAX
    }

    open spec fn is_distance(old: &Self, new: &Self, d: &u16) -> bool {
        *d == *new - *old
    }

    open spec fn reaches(&self, d: &u16) -> bool {
        u16::MIN <= *self + *d <= u16::MAX
    }

    open spec fn is_advanced(&self, d: &u16, moved: &Self) -> bool {
        *moved == *self + *d
    }

    open spec fn joins(a: &u16, b: &u16) -> bool {
        u16::MIN <= *a + *b <= u16::MAX
    }

    open spec fn is_joined(a: &u16, b: &u16, sum: &u16) -> bool {
        *sum == *a + *b
    }

    open spec fn is_zero_spec(d: &u16) -> bool {
        *d == 0
    }

    proof fn distance_zero_iff_same(old: &Self, new: &Self, d: &u16) {
    }

    proof fn distances_chain(a: &Self, b: &Self, c: &Self, ab: &u16, bc: &u16, ac: &u16) {
    }

    proof fn advance_by_distance(old: &Self, new: &Self, d: &u16, moved: &Self) {
    }

    proof fn join_associative(
        a: &u16,
        b: &u16,
        c: &u16,
        ab: &u16,
        bc: &u16,
        left: &u16,
        right: &u16,
    ) {
    }

    fn distance(old: &Self, new: &Self) -> (d: u16) {
        *new - *old
    }

    fn advance(&self, d: &u16) -> (moved: Self) {
        *self + *d
    }

    fn join(a: &u16, b: &u16) -> (sum: u16) {
        *a + *b
    }

    fn is_zero(d: &u16) -> (zero: bool) {
        unsigned_is_zero(*d as u128)
    }
}

impl Numeric for i16 {
    type Distance = i16;

    open spec fn spans(old: &Self, new: &Self) -> bool {
        i16::MIN <= *new - *old <= i16::MAX
    }

    open spec fn is_distance(old: &Self, new: &Self, d: &i16) -> bool {
        *d == *new - *old
    }

    open spec fn reaches(&self, d: &i16) -> bool {
        i16::MIN <= *self + *d <= i16::MAX
    }

    open spec fn is_advanced(&self, d: &i16, moved: &Self) -> bool {
        *moved == *self + *d
    }

    open spec fn joins(a: &i16, b: &i16) -> bool {
        i16::MIN <= *a + *b <= i16::MAX
    }

    open spec fn is_joined(a: &i16, b: &i16, sum: &i16) -> bool {
        *sum == *a + *b
    }

    open spec fn is_zero_spec(d: &i16) -> bool {
        *d == 0
    }

    proof fn distance_zero_iff_same(old: &Self, new: &Self, d: &i16) {
    }

    proof fn distances_chain(a: &Self, b: &Self, c: &Self, ab: &i16, bc: &i16, ac: &i16) {
    }

    proof fn advance_by_distance(old: &Self, new: &Self, d: &i16, moved: &Self) {
    }

    proof fn join_associative(
        a: &i16,
        b: &i16,
        c: &i16,
        ab: &i16,
        bc: &i16,
        left: &i16,
        right: &i16,
    ) {
    }

    fn distance(old: &Self, new: &Self) -> (d: i16) {
        *new - *old
    }

    fn advance(&self, d: &i16) -> (moved: Self) {
        *self + *d
    }

    fn join(a: &i16, b: &i16) -> (sum: i16) {
        *a + *b
    }

    fn is_zero(d: &i16) -> (zero: bool) {
        signed_is_zero(*d as i128)
    }
}

impl Numeric for u32 {
    type Distance = u32;

    open spec fn spans(old: &Self, new: &Self) -> bool {
        u32::MIN <= *new - *old <= u32::MAX
    }

    open spec fn is_distance(old: &Self, new: &Self, d: &u32) -> bool {
        *d == *new - *old
    }

    open spec fn reaches(&self, d: &u32) -> bool {
        u32::MIN <= *self + *d <= u32::MAX
    }

    open spec fn is_advanced(&self, d: &u32, moved: &Self) -> bool {
        *moved == *self + *d
    }

    open spec fn joins(a: &u32, b: &u32) -> bool {
        u32::MIN <= *a + *b <= u32::MAX
    }

    open spec fn is_joined(a: &u32, b: &u32, sum: &u32) -> bool {
        *sum == *a + *b
    }

    open spec fn is_zero_spec(d: &u32) -> bool {
        *d == 0
    }

    proof fn distance_zero_iff_same(old: &Self, new: &Self, d: &u32) {
    }

    proof fn distances_chain(a: &Self, b: &Self, c: &Self, ab: &u32, bc: &u32, ac: &u32) {
    }

    proof fn advance_by_distance(old: &Self, new: &Self, d: &u32, moved: &Self) {
    }

    proof fn join_associative(
        a: &u32,
        b: &u32,
        c: &u32,
        ab: &u32,
        bc: &u32,
        left: &u32,
        right: &u32,
    ) {
    }

    fn distance(old: &Self, new: &Self) -> (d: u32) {
        *new - *old
    }

    fn advance(&self, d: &u32) -> (moved: Self) {
        *self + *d
    }

    fn join(a: &u32, b: &u32) -> (sum: u32) {
        *a + *b
    }

    fn is_zero(d: &u32) -> (zero: bool) {
        unsigned_is_zero(*d as u128)
    }
}

impl Numeric for i32 {
    type Distance = i32;

    open spec fn spans(old: &Self, new: &Self) -> bool {
        i32::MIN <= *new - *old <= i32::MAX
    }

    open spec fn is_distance(old: &Self, new: &Self, d: &i32) -> bool {
        *d == *new - *old
    }

    open spec fn reaches(&self, d: &i32) -> bool {
        i32::MIN <= *self + *d <= i32::MAX
    }

    open spec fn is_advanced(&self, d: &i32, moved: &Self) -> bool {
        *moved == *self + *d
    }

    open spec fn joins(a: &i32, b: &i32) -> bool {
        i32::MIN <= *a + *b <= i32::MAX
    }

    open spec fn is_joined(a: &i32, b: &i32, sum: &i32) -> bool {
        *sum == *a + *b
    }

    open spec fn is_zero_spec(d: &i32) -> bool {
        *d == 0
    }

    proof fn distance_zero_iff_same(old: &Self, new: &Self, d: &i32) {
    }

    proof fn distances_chain(a: &Self, b: &Self, c: &Self, ab: &i32, bc: &i32, ac: &i32) {
    }

    proof fn advance_by_distance(old: &Self, new: &Self, d: &i32, moved: &Self) {
    }

    proof fn join_associative(
        a: &i32,
        b: &i32,
        c: &i32,
        ab: &i32,
        bc: &i32,
        left: &i32,
        right: &i32,
    ) {
    }

    fn distance(old: &Self, new: &Self) -> (d: i32) {
        *new - *old
    }

    fn advance(&self, d: &i32) -> (moved: Self) {
        *self + *d
    }

    fn join(a: &i32, b: &i32) -> (sum: i32) {
        *a + *b
    }

    fn is_zero(d: &i32) -> (zero: bool) {
        signed_is_zero(*d as i128)
    }
}

impl Numeric for u64 {
    type Distance = u64;

    open spec fn spans(old: &Self, new: &Self) -> bool {
        u64::MIN <= *new - *old <= u64::MAX
    }

    open spec fn is_distance(old: &Self, new: &Self, d: &u64) -> bool {
        *d == *new - *old
    }

    open spec fn reaches(&self, d: &u64) -> bool {
        u64::MIN <= *self + *d <= u64::MAX
    }

    open spec fn is_advanced(&self, d: &u64, moved: &Self) -> bool {
        *moved == *self + *d
    }

    open spec fn joins(a: &u64, b: &u64) -> bool {
        u64::MIN <= *a + *b <= u64::MAX
    }

    open spec fn is_joined(a: &u64, b: &u64, sum: &u64) -> bool {
        *sum == *a + *b
    }

    open spec fn is_zero_spec(d: &u64) -> bool {
        *d == 0
    }

    proof fn distance_zero_iff_same(old: &Self, new: &Self, d: &u64) {
    }

    proof fn distances_chain(a: &Self, b: &Self, c: &Self, ab: &u64, bc: &u64, ac: &u64) {
    }

    proof fn advance_by_distance(old: &Self, new: &Self, d: &u64, moved: &Self) {
    }

    proof fn join_associative(
        a: &u64,
        b: &u64,
        c: &u64,
        ab: &u64,
        bc: &u64,
        left: &u64,
        right: &u64,
    ) {
    }

    fn distance(old: &Self, new: &Self) -> (d: u64) {
        *new - *old
    }

    fn advance(&self, d: &u64) -> (moved: Self) {
        *self + *d
    }

    fn join(a: &u64, b: &u64) -> (sum: u64) {
        *a + *b
    }

    fn is_zero(d: &u64) -> (zero: bool) {
        unsigned_is_zero(*d as u128)
    }
}

impl Numeric for i64 {
    type Distance = i64;

    open spec fn spans(old: &Self, new: &Self) -> bool {
        i64::MIN <= *new - *old <= i64::MAX
    }

    open spec fn is_distance(old: &Self, new: &Self, d: &i64) -> bool {
        *d == *new - *old
    }

    open spec fn reaches(&self, d: &i64) -> bool {
        i64::MIN <= *self + *d <= i64::MAX
    }

    open spec fn is_advanced(&self, d: &i64, moved: &Self) -> bool {
        *moved == *self + *d
    }

    open spec fn joins(a: &i64, b: &i64) -> bool {
        i64::MIN <= *a + *b <= i64::MAX
    }

    open spec fn is_joined(a: &i64, b: &i64, sum: &i64) -> bool {
        *sum == *a + *b
    }

    open spec fn is_zero_spec(d: &i64) -> bool {
        *d == 0
    }

    proof fn distance_zero_iff_same(old: &Self, new: &Self, d: &i64) {
    }

    proof fn distances_chain(a: &Self, b: &Self, c: &Self, ab: &i64, bc: &i64, ac: &i64) {
    }

    proof fn advance_by_distance(old: &Self, new: &Self, d: &i64, moved: &Self) {
    }

    proof fn join_associative(
        a: &i64,
        b: &i64,
        c: &i64,
        ab: &i64,
        bc: &i64,
        left: &i64,
        right: &i64,
    ) {
    }

    fn distance(old: &Self, new: &Self) -> (d: i64) {
        *new - *old
    }

    fn advance(&self, d: &i64) -> (moved: Self) {
        *self + *d
    }

    fn join(a: &i64, b: &i64) -> (sum: i64) {
        *a + *b
    }

    fn is_zero(d: &i64) -> (zero: bool) {
        signed_is_zero(*d as i128)
    }
}

impl Numeric for u128 {
    type Distance = u128;

    open spec fn spans(old: &Self, new: &Self) -> bool {
        u128::MIN <= *new - *old <= u128::MAX
    }

    open spec fn is_distance(old: &Self, new: &Self, d: &u128) -> bool {
        *d == *new - *old
    }

    open spec fn reaches(&self, d: &u128) -> bool {
        u128::MIN <= *self + *d <= u128::MAX
    }

    open spec fn is_advanced(&self, d: &u128, moved: &Self) -> bool {
        *moved == *self + *d
    }

    open spec fn joins(a: &u128, b: &u128) -> bool {
        u128::MIN <= *a + *b <= u128::MAX
    }

    open spec fn is_joined(a: &u128, b: &u128, sum: &u128) -> bool {
        *sum == *a + *b
    }

    open spec fn is_zero_spec(d: &u128) -> bool {
        *d == 0
    }

    proof fn distance_zero_iff_same(old: &Self, new: &Self, d: &u128) {
    }

    proof fn distances_chain(a: &Self, b: &Self, c: &Self, ab: &u128, bc: &u128, ac: &u128) {
    }

    proof fn advance_by_distance(old: &Self, new: &Self, d: &u128, moved: &Self) {
    }

    proof fn join_associative(
        a: &u128,
        b: &u128,
        c: &u128,
        ab: &u128,
        bc: &u128,
        left: &u128,
        right: &u128,
    ) {
    }

    fn distance(old: &Self, new: &Self) -> (d: u128) {
        *new - *old
    }

    fn advance(&self, d: &u128) -> (moved: Self) {
        *self + *d
    }

    fn join(a: &u128, b: &u128) -> (sum: u128) {
        *a + *b
    }

    fn is_zero(d: &u128) -> (zero: bool) {
        unsigned_is_zero(*d)
    }
}

impl Numeric for i128 {
    type Distance = i128;

    open spec fn spans(old: &Self, new: &Self) -> bool {
        i128::MIN <= *new - *old <= i128::MAX
    }

    open spec fn is_distance(old: &Self, new: &Self, d: &i128) -> bool {
        *d == *new - *old
    }

    open spec fn reaches(&self, d: &i128) -> bool {
        i128::MIN <= *self + *d <= i128::MAX
    }

    open spec fn is_advanced(&self, d: &i128, moved: &Self) -> bool {
        *moved == *self + *d
    }

    open spec fn joins(a: &i128, b: &i128) -> bool {
        i128::MIN <= *a + *b <= i128::MAX
    }

    open spec fn is_joined(a: &i128, b: &i128, sum: &i128) -> bool {
        *sum == *a + *b
    }

    open spec fn is_zero_spec(d: &i128) -> bool {
        *d == 0
    }

    proof fn distance_zero_iff_same(old: &Self, new: &Self, d: &i128) {
    }

    proof fn distances_chain(a: &Self, b: &Self, c: &Self, ab: &i128, bc: &i128, ac: &i128) {
    }

    proof fn advance_by_distance(old: &Self, new: &Self, d: &i128, moved: &Self) {
    }

    proof fn join_associative(
        a: &i128,
        b: &i128,
        c: &i128,
        ab: &i128,
        bc: &i128,
        left: &i128,
        right: &i128,
    ) {
    }

    fn distance(old: &Self, new: &Self) -> (d: i128) {
        *new - *old
    }

    fn advance(&self, d: &i128) -> (moved: Self) {
        *self + *d
    }

    fn join(a: &i128, b: &i128) -> (sum: i128) {
        *a + *b
    }

    fn is_zero(d: &i128) -> (zero: bool) {
        signed_is_zero(*d)
    }
}

impl Numeric for usize {
    type Distance = usize;

    open spec fn spans(old: &Self, new: &Self) -> bool {
        usize::MIN <= *new - *old <= usize::MAX
    }

    open spec fn is_distance(old: &Self, new: &Self, d: &usize) -> bool {
        *d == *new - *old
    }

    open spec fn reaches(&self, d: &usize) -> bool {
        usize::MIN <= *self + *d <= usize::MAX
    }

    open spec fn is_advanced(&self, d: &usize, moved: &Self) -> bool {
        *moved == *self + *d
    }

    open spec fn joins(a: &usize, b: &usize) -> bool {
        usize::MIN <= *a + *b <= usize::MAX
    }

    open spec fn is_joined(a: &usize, b: &usize, sum: &usize) -> bool {
        *sum == *a + *b
    }

    open spec fn is_zero_spec(d: &usize) -> bool {
        *d == 0
    }

    proof fn distance_zero_iff_same(old: &Self, new: &Self, d: &usize) {
    }

    proof fn distances_chain(a: &Self, b: &Self, c: &Self, ab: &usize, bc: &usize, ac: &usize) {
    }

    proof fn advance_by_distance(old: &Self, new: &Self, d: &usize, moved: &Self) {
    }

    proof fn join_associative(
        a: &usize,
        b: &usize,
        c: &usize,
        ab: &usize,
        bc: &usize,
        left: &usize,
        right: &usize,
    ) {
    }

    fn distance(old: &Self, new: &Self) -> (d: usize) {
        *new - *old
    }

    fn advance(&self, d: &usize) -> (moved: Self) {
        *self + *d
    }

    fn join(a: &usize, b: &usize) -> (sum: usize) {
        *a + *b
    }

    fn is_zero(d: &usize) -> (zero: bool) {
        unsigned_is_zero(*d as u128)
    }
}

impl Numeric for isize {
    type Distance = isize;

    open spec fn spans(old: &Self, new: &Self) -> bool {
        isize::MIN <= *new - *old <= isize::MAX
    }

    open spec fn is_distance(old: &Self, new: &Self, d: &isize) -> bool {
        *d == *new - *old
    }

    open spec fn reaches(&self, d: &isize) -> bool {
        isize::MIN <= *self + *d <= isize::MAX
    }

    open spec fn is_advanced(&self, d: &isize, moved: &Self) -> bool {
        *moved == *self + *d
    }

    open spec fn joins(a: &isize, b: &isize) -> bool {
        isize::MIN <= *a + *b <= isize::MAX
    }

    open spec fn is_joined(a: &isize, b: &isize, sum: &isize) -> bool {
        *sum == *a + *b
    }

    open spec fn is_zero_spec(d: &isize) -> bool {
        *d == 0
    }

    proof fn distance_zero_iff_same(old: &Self, new: &Self, d: &isize) {
    }

    proof fn distances_chain(a: &Self, b: &Self, c: &Self, ab: &isize, bc: &isize, ac: &isize) {
    }

    proof fn advance_by_distance(old: &Self, new: &Self, d: &isize, moved: &Self) {
    }

    proof fn join_associative(
        a: &isize,
        b: &isize,
        c: &isize,
        ab: &isize,
        bc: &isize,
        left: &isize,
        right: &isize,
    ) {
    }

    fn distance(old: &Self, new: &Self) -> (d: isize) {
        *new - *old
    }

    fn advance(&self, d: &isize) -> (moved: Self) {
        *self + *d
    }

    fn join(a: &isize, b: &isize) -> (sum: isize) {
        *a + *b
    }

    fn is_zero(d: &isize) -> (zero: bool) {
        signed_is_zero(*d as i128)
    }
}

/// A diff that keeps only the distance between the value before the change
/// and the value after it. It applies to whatever the field holds, by
/// addition.
#[derive(Debug, PartialEq, Copy, Clone)]
pub struct NumericDistanceDiff<T> where T: Numeric {
    difference: T::Distance,
}

impl<T: Numeric> NumericDistanceDiff<T> {
    /// The distance that the diff adds.
    pub closed spec fn difference_spec(&self) -> T::Distance {
        self.difference
    }

    /// The distance that the diff adds.
    pub fn difference(&self) -> (d: T::Distance)
        ensures
            d == self.difference_spec(),
    {
        self.difference
    }

    /// The diff that adds `difference`.
    pub fn from_difference(difference: T::Distance) -> (diff: Self)
        ensures
            diff.difference_spec() == difference,
    {
        NumericDistanceDiff { difference }
    }
}

impl<T: Numeric> Diff for NumericDistanceDiff<T> {
    type DiffResult = T::Distance;

    type Object = T;

    open spec fn can_record(old: &T, new: &T) -> bool {
        T::spans(old, new)
    }

    open spec fn records(&self, old: &T, new: &T) -> bool {
        T::is_distance(old, new, &self.difference_spec())
    }

    open spec fn contains_change_spec(&self) -> bool {
        !T::is_zero_spec(&self.difference_spec())
    }

    open spec fn changes_object_spec(&self, current: &T) -> bool {
        self.contains_change_spec()
    }

    open spec fn applies_cleanly_spec(&self, obj: &T) -> bool {
        true
    }

    open spec fn mismatch_spec(&self, obj: &T) -> MismatchView {
        MismatchView {
            field_name: Seq::empty(),
            expected: Seq::empty(),
            received: Seq::empty(),
            mismatch_type: MismatchType::PatchOldValue,
        }
    }

    open spec fn can_apply(&self, obj: &T) -> bool {
        obj.reaches(&self.difference_spec())
    }

    open spec fn is_applied(&self, before: &T, after: &T) -> bool {
        before.is_advanced(&self.difference_spec(), after)
    }

    open spec fn can_merge(&self, rhs: &Self) -> bool {
        T::joins(&self.difference_spec(), &rhs.difference_spec())
    }

    open spec fn merges(&self, rhs: &Self) -> bool {
        true
    }

    open spec fn is_merged(&self, rhs: &Self, merged: &Self) -> bool {
        T::is_joined(&self.difference_spec(), &rhs.difference_spec(), &merged.difference_spec())
    }

    proof fn mismatch_is_with_old_value(&self, obj: &T) {
    }

    proof fn applies_to_its_old_value(&self, old: &T, new: &T) {
    }

    proof fn step_to_itself_is_no_change(&self, value: &T) {
        T::distance_zero_iff_same(value, value, &self.difference_spec());
    }

    proof fn chain_merges(&self, rhs: &Self, merged: &Self, a: &T, b: &T, c: &T) {
        if self.is_merged(rhs, merged) {
            T::distances_chain(
                a,
                b,
                c,
                &self.difference_spec(),
                &rhs.difference_spec(),
                &merged.difference_spec(),
            );
        }
    }

    fn new(old: &T, new: &T) -> (diff: Self) {
        NumericDistanceDiff { difference: T::distance(old, new) }
    }

    fn changes_object(&self, _old: &T) -> (changes: bool) {
        self.contains_change()
    }

    fn contains_change(&self) -> (changes: bool) {
        !T::is_zero(&self.difference)
    }

    fn merge(&mut self, rhs: &Self) -> (outcome: Result<(), ()>) {
        self.difference = T::join(&self.difference, &rhs.difference);
        Ok(())
    }

    fn applies_cleanly(&self, _obj: &T) -> (outcome: Result<(), MismatchError>) {
        Ok(())
    }

    fn apply_into(&self, obj: &mut T) -> (outcome: Result<(), MismatchError>) {
        *obj = obj.advance(&self.difference);
        Ok(())
    }
}

} // verus!
