//! A structured patch and diff engine.
//!
//! A change to one field of a record is a value of its own (a [`diff::Diff`]).
//! It can be asked whether it changes anything, merged with the change that
//! follows it, and applied to a field after a check that the field still holds
//! what the change expects.
//!
//! - [`patchable`]: the values that a field can hold, with their comparison.
//! - [`diff`]: the two kinds of diff, and what holds of them.
//! - [`mismatch`]: what a failed check or an incomplete record reports.
//! - [`traits`]: the contracts of whole-record patches and partial records.
//! - [`example`]: a record with its partial and its patch, built on these.
//! - [`text`]: the texts that reports are made of.

pub mod diff;
pub mod example;
pub mod mismatch;
pub mod patchable;
pub mod text;
pub mod traits;
