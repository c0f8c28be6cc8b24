//! Values that report why a patch or a partial record could not be used.

use crate::text::{debug_text, decimal, decimal_text};
use vstd::prelude::*;
use vstd::std_specs::convert::IntoSpec;

verus! {

/// The two ways in which a field can disagree with a patch.
#[derive(Debug, Copy, Clone, Eq, PartialEq, Ord, PartialOrd, Hash, Structural)]
pub enum MismatchType {
    /// An identity field of the patch differs from the object's.
    ObjectID,
    /// The object's current value differs from the old value that a diff recorded.
    PatchOldValue,
}

impl MismatchType {
    /// The sentence that describes the kind.
    pub open spec fn description(self) -> Seq<char> {
        match self {
            MismatchType::ObjectID => "Object id didn't match patch id"@,
            MismatchType::PatchOldValue => "Current object valie did not match old patch value"@,
        }
    }

    /// The sentence that describes the kind.
    pub fn to_string(&self) -> (text: String)
        ensures
            text@ == self.description(),
    {
        match self {
            MismatchType::ObjectID => String::from_str("Object id didn't match patch id"),
            MismatchType::PatchOldValue => String::from_str(
                "Current object valie did not match old patch value",
            ),
        }
    }
}

/// What a [`MismatchError`] holds, as mathematical values.
pub struct MismatchView {
    pub field_name: Seq<char>,
    pub expected: Seq<char>,
    pub received: Seq<char>,
    pub mismatch_type: MismatchType,
}

impl MismatchView {
    /// The line that reports the mismatch, with its line break.
    pub open spec fn line(self) -> Seq<char> {
        self.mismatch_type.description() + " - field "@ + self.field_name + ": expected "@
            + self.expected + ", got "@ + self.received + "\n"@
    }
}

/// The lines of all of `mismatches` in order, each followed by one more line
/// break.
pub open spec fn report_lines(mismatches: Seq<MismatchView>) -> Seq<char>
    decreases mismatches.len(),
{
    if mismatches.len() == 0 {
        Seq::empty()
    } else {
        report_lines(mismatches.drop_last()) + mismatches.last().line() + "\n"@
    }
}

/// One field-level conflict: which field, what was expected, what was found.
#[derive(Debug, Hash, Eq, PartialEq)]
pub struct MismatchError {
    field_name: &'static str,
    /// The value that the operation needed.
    pub expected: String,
    /// The value that the object held.
    pub received: String,
    mismatch_type: MismatchType,
}

impl View for MismatchError {
    type V = MismatchView;

    closed spec fn view(&self) -> MismatchView {
        MismatchView {
            field_name: self.field_name@,
            expected: self.expected@,
            received: self.received@,
            mismatch_type: self.mismatch_type,
        }
    }
}

impl Clone for MismatchError {
    fn clone(&self) -> (twin: Self)
        ensures
            twin == *self,
    {
        MismatchError {
            field_name: self.field_name,
            expected: self.expected.clone(),
            received: self.received.clone(),
            mismatch_type: self.mismatch_type,
        }
    }
}

impl MismatchError {
    /// Builds a mismatch for `field_name` from the two texts.
    pub fn from_parts(
        field_name: &'static str,
        expected: String,
        received: String,
        mismatch_type: MismatchType,
    ) -> (error: MismatchError)
        ensures
            error@ == (MismatchView {
                field_name: field_name@,
                expected: expected@,
                received: received@,
                mismatch_type,
            }),
    {
        MismatchError { field_name, expected, received, mismatch_type }
    }

    /// Builds a mismatch for `field_name`. The two texts are whatever
    /// `expected` and `received` convert to.
    pub fn new<E, R>(
        field_name: &'static str,
        expected: E,
        received: R,
        mismatch_type: MismatchType,
    ) -> (error: MismatchError) where E: Into<String>, R: Into<String>
        ensures
            error@.field_name == field_name@,
            error@.mismatch_type == mismatch_type,
            E::obeys_into_spec() ==> error@.expected == expected.into_spec()@,
            R::obeys_into_spec() ==> error@.received == received.into_spec()@,
    {
        MismatchError::from_parts(field_name, expected.into(), received.into(), mismatch_type)
    }

    /// The line that reports the mismatch, with its line break.
    pub fn to_string(&self) -> (text: String)
        ensures
            text@ == self@.line(),
    {
        let mut text = self.mismatch_type.to_string();
        text.append(" - field ");
        text.append(self.field_name);
        text.append(": expected ");
        text.append(self.expected.as_str());
        text.append(", got ");
        text.append(self.received.as_str());
        text.append("\n");
        text
    }

    /// The name of the field that disagreed.
    pub fn name(&self) -> (name: &'static str)
        ensures
            name@ == self@.field_name,
    {
        self.field_name
    }

    /// The kind of disagreement.
    pub fn mismatch_type(&self) -> (kind: MismatchType)
        ensures
            kind == self@.mismatch_type,
    {
        self.mismatch_type
    }
}

/// The mismatches that one check found, in the order in which it found them.
/// The same mismatch may occur more than once.
#[derive(Debug, Clone, Eq, PartialEq)]
pub struct MultipleMismatchError {
    mismatches: Vec<MismatchError>,
}

impl View for MultipleMismatchError {
    type V = Seq<MismatchView>;

    closed spec fn view(&self) -> Seq<MismatchView> {
        self.mismatches@.map_values(|e: MismatchError| e@)
    }
}

impl Default for MultipleMismatchError {
    fn default() -> (errors: Self)
        ensures
            errors@ == Seq::<MismatchView>::empty(),
    {
        MultipleMismatchError { mismatches: Vec::new() }
    }
}

impl MultipleMismatchError {
    /// An aggregate without mismatches.
    pub fn new() -> (errors: MultipleMismatchError)
        ensures
            errors@ == Seq::<MismatchView>::empty(),
    {
        MultipleMismatchError { mismatches: Vec::new() }
    }

    /// Appends `value` behind the mismatches that are already held.
    pub fn add_error(&mut self, value: MismatchError)
        ensures
            final(self)@ == old(self)@.push(value@),
    {
        self.mismatches.push(value);
        assert(self@ =~= old(self)@.push(value@));
    }

    /// True when no mismatch is held.
    pub fn is_error_free(&self) -> (free: bool)
        ensures
            free == (self@.len() == 0),
    {
        self.mismatches.len() == 0
    }

    /// True when at least one mismatch is held.
    pub fn has_errors(&self) -> (any: bool)
        ensures
            any == (self@.len() > 0),
    {
        self.mismatches.len() != 0
    }

    /// The number of mismatches held.
    pub fn len(&self) -> (n: usize)
        ensures
            n == self@.len(),
    {
        self.mismatches.len()
    }

    /// What `to_string` gives: the number of mismatches, and the report lines.
    pub open spec fn report(mismatches: Seq<MismatchView>) -> Seq<char> {
        decimal(mismatches.len()) + " mismatches:\n"@ + report_lines(mismatches)
    }

    /// The report of all mismatches: their number, then one line for each.
    pub fn to_string(&self) -> (text: String)
        ensures
            text@ == Self::report(self@),
    {
        let mut text = decimal_text(self.mismatches.len() as u64);
        text.append(" mismatches:\n");
        let ghost head = text@;
        let mut i: usize = 0;
        assert(self@.subrange(0, 0) =~= Seq::empty());
        assert(text@ =~= head + report_lines(self@.subrange(0, 0)));
        while i < self.mismatches.len()
            invariant
                i <= self.mismatches.len(),
                self@.len() == self.mismatches.len(),
                head == decimal(self@.len()) + " mismatches:\n"@,
                text@ == head + report_lines(self@.subrange(0, i as int)),
            decreases self.mismatches.len() - i,
        {
            let ghost before = self@.subrange(0, i as int);
            let ghost after = self@.subrange(0, i + 1);
            let line = self.mismatches[i].to_string();
            text.append(line.as_str());
            text.append("\n");
            assert(after.drop_last() =~= before);
            assert(after.last() == self@[i as int]);
            assert(text@ =~= head + report_lines(after));
            i += 1;
        }
        assert(self@.subrange(0, i as int) =~= self@);
        text
    }

    /// Appends a copy of every mismatch of `rhs`, in order. Nothing is
    /// deduplicated.
    pub fn merge(&mut self, rhs: &MultipleMismatchError)
        ensures
            final(self)@ == old(self)@ + rhs@,
    {
        let mut i: usize = 0;
        while i < rhs.mismatches.len()
            invariant
                i <= rhs.mismatches.len(),
                self@ == old(self)@ + rhs@.subrange(0, i as int),
            decreases rhs.mismatches.len() - i,
        {
            let ghost before = self@;
            self.mismatches.push(rhs.mismatches[i].clone());
            assert(self@ =~= before.push(rhs@[i as int]));
            assert(rhs@.subrange(0, i + 1) =~= rhs@.subrange(0, i as int).push(rhs@[i as int]));
            i += 1;
        }
        assert(rhs@.subrange(0, i as int) =~= rhs@);
    }
}

/// Why an operation that needs a complete record failed: the operation, the
/// record's identity, and the incomplete record itself.
#[derive(Debug, Clone, Hash, Eq, PartialEq)]
pub struct IncompleteError<Incompletable> {
    operation: &'static str,
    object_id: String,
    incomplete: Incompletable,
}

impl<Incompletable> IncompleteError<Incompletable> {
    /// The name of the operation that failed.
    pub closed spec fn operation_spec(&self) -> Seq<char> {
        self.operation@
    }

    /// The identity of the record, as text.
    pub closed spec fn object_id_spec(&self) -> String {
        self.object_id
    }

    /// The record that was not complete.
    pub closed spec fn incomplete_spec(&self) -> Incompletable {
        self.incomplete
    }

    /// Records that `operation` failed on the record `incomplete`, whose
    /// identity is the text `object_id`.
    pub fn from_parts(operation: &'static str, object_id: String, incomplete: Incompletable) -> (error:
        IncompleteError<Incompletable>)
        ensures
            error.operation_spec() == operation@,
            error.incomplete_spec() == incomplete,
            error.object_id_spec() == object_id,
    {
        IncompleteError { operation, object_id, incomplete }
    }

    /// Records that `operation` failed on the record `incomplete`, whose
    /// identity is what `object_id` converts to.
    pub fn new<T>(operation: &'static str, object_id: T, incomplete: Incompletable) -> (error:
        IncompleteError<Incompletable>) where T: Into<String>
        ensures
            error.operation_spec() == operation@,
            error.incomplete_spec() == incomplete,
            T::obeys_into_spec() ==> error.object_id_spec() == object_id.into_spec(),
    {
        IncompleteError { operation, object_id: object_id.into(), incomplete }
    }

    /// What `to_string` gives when `data` is the text of the record.
    pub open spec fn report(&self, data: Seq<char>) -> Seq<char> {
        "IncompleteError: `"@ + self.operation_spec() + "` failed for "@ + self.object_id_spec()@
            + ".\nData:\n"@ + data
    }

    /// The report of the failure, with `data` as the text of the record.
    pub fn to_string_with(&self, data: &str) -> (text: String)
        ensures
            text@ == self.report(data@),
    {
        let mut text = String::from_str("IncompleteError: `");
        text.append(self.operation);
        text.append("` failed for ");
        text.append(self.object_id.as_str());
        text.append(".\nData:\n");
        text.append(data);
        text
    }

    /// The report of the failure. The record is shown as its `Debug`
    /// implementation prints it.
    pub fn to_string(&self) -> (text: String) where Incompletable: core::fmt::Debug
        ensures
            exists|data: Seq<char>| text@ == self.report(data),
    {
        let data = debug_text(&self.incomplete);
        let text = self.to_string_with(data.as_str());
        assert(text@ == self.report(data@));
        text
    }

    /// The name of the operation that failed.
    pub fn operation(&self) -> (name: &'static str)
        ensures
            name@ == self.operation_spec(),
    {
        self.operation
    }

    /// The identity of the record, as text.
    pub fn object_id(&self) -> (id: &String)
        ensures
            *id == self.object_id_spec(),
    {
        &self.object_id
    }

    /// The record that was not complete.
    pub fn incomplete(&self) -> (record: &Incompletable)
        ensures
            *record == self.incomplete_spec(),
    {
        &self.incomplete
    }

    /// Gives the incomplete record back.
    pub fn into_incomplete(self) -> (record: Incompletable)
        ensures
            record == self.incomplete_spec(),
    {
        self.incomplete
    }
}

} // verus!
