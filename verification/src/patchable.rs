//! Field values that a patch can carry: how two of them are compared, how
//! one is duplicated, and how one is shown in a report.

use crate::text::{
    char_debug,
    char_debug_text,
    decimal,
    signed_debug_text,
    signed_decimal,
    str_debug,
    str_debug_text,
    unsigned_debug_text,
    Text,
};
use vstd::prelude::*;

verus! {

/// A value that can stand in a field of a patchable record.
///
/// `compare` decides the relation `compare_spec`, which every implementation
/// proves to be an equivalence. For the types implemented here it is exact
/// equality of the values. `copy` gives an independent value that compares
/// equal to the one it was made from. `debug_text` gives the text that
/// stands for the value in a report; for the types implemented here it is
/// what `{:?}` prints.
pub trait PatchableField: Sized {
    /// The relation that `compare` decides.
    spec fn compare_spec(&self, rhs: &Self) -> bool;

    /// The text that stands for the value in a report.
    spec fn debug_spec(&self) -> Text;

    /// Every value compares equal to itself.
    proof fn compare_reflexive(a: &Self)
        ensures
            a.compare_spec(a),
    ;

    /// The order of the two sides does not matter.
    proof fn compare_symmetric(a: &Self, b: &Self)
        requires
            a.compare_spec(b),
        ensures
            b.compare_spec(a),
    ;

    /// Two values that compare equal to a third compare equal to each other.
    proof fn compare_transitive(a: &Self, b: &Self, c: &Self)
        requires
            a.compare_spec(b),
            b.compare_spec(c),
        ensures
            a.compare_spec(c),
    ;

    /// Whether the two values count as the same.
    fn compare(&self, rhs: &Self) -> (same: bool)
        ensures
            same == self.compare_spec(rhs),
    ;

    /// An owned duplicate of the value.
    fn copy(&self) -> (twin: Self)
        ensures
            self.compare_spec(&twin),
    ;

    /// The text that stands for the value in a report.
    fn debug_text(&self) -> (text: String)
        ensures
            text@ == self.debug_spec(),
    ;
}

impl PatchableField for u8 {
    open spec fn compare_spec(&self, rhs: &Self) -> bool {
        *self == *rhs
    }

    open spec fn debug_spec(&self) -> Text {
        decimal(*self as nat)
    }

    proof fn compare_reflexive(a: &Self) {
    }

    proof fn compare_symmetric(a: &Self, b: &Self) {
    }

    proof fn compare_transitive(a: &Self, b: &Self, c: &Self) {
    }

    fn compare(&self, rhs: &Self) -> (same: bool) {
        *self == *rhs
    }

    fn copy(&self) -> (twin: Self) {
        *self
    }

    fn debug_text(&self) -> (text: String) {
        unsigned_debug_text(*self as u128)
    }
}

impl PatchableField for i8 {
    open spec fn compare_spec(&self, rhs: &Self) -> bool {
        *self == *rhs
    }

    open spec fn debug_spec(&self) -> Text {
        signed_decimal(*self as int)
    }

    proof fn compare_reflexive(a: &Self) {
    }

    proof fn compare_symmetric(a: &Self, b: &Self) {
    }

    proof fn compare_transitive(a: &Self, b: &Self, c: &Self) {
    }

    fn compare(&self, rhs: &Self) -> (same: bool) {
        *self == *rhs
    }

    fn copy(&self) -> (twin: Self) {
        *self
    }

    fn debug_text(&self) -> (text: String) {
        signed_debug_text(*self as i128)
    }
}

impl PatchableField for u16 {
    open spec fn compare_spec(&self, rhs: &Self) -> bool {
        *self == *rhs
    }

    open spec fn debug_spec(&self) -> Text {
        decimal(*self as nat)
    }

    proof fn compare_reflexive(a: &Self) {
    }

    proof fn compare_symmetric(a: &Self, b: &Self) {
    }

    proof fn compare_transitive(a: &Self, b: &Self, c: &Self) {
    }

    fn compare(&self, rhs: &Self) -> (same: bool) {
        *self == *rhs
    }

    fn copy(&self) -> (twin: Self) {
        *self
    }

    fn debug_text(&self) -> (text: String) {
        unsigned_debug_text(*self as u128)
    }
}

impl PatchableField for i16 {
    open spec fn compare_spec(&self, rhs: &Self) -> bool {
        *self == *rhs
    }

    open spec fn debug_spec(&self) -> Text {
        signed_decimal(*self as int)
    }

    proof fn compare_reflexive(a: &Self) {
    }

    proof fn compare_symmetric(a: &Self, b: &Self) {
    }

    proof fn compare_transitive(a: &Self, b: &Self, c: &Self) {
    }

    fn compare(&self, rhs: &Self) -> (same: bool) {
        *self == *rhs
    }

    fn copy(&self) -> (twin: Self) {
        *self
    }

    fn debug_text(&self) -> (text: String) {
        signed_debug_text(*self as i128)
    }
}

impl PatchableField for u32 {
    open spec fn compare_spec(&self, rhs: &Self) -> bool {
        *self == *rhs
    }

    open spec fn debug_spec(&self) -> Text {
        decimal(*self as nat)
    }

    proof fn compare_reflexive(a: &Self) {
    }

    proof fn compare_symmetric(a: &Self, b: &Self) {
    }

    proof fn compare_transitive(a: &Self, b: &Self, c: &Self) {
    }

    fn compare(&self, rhs: &Self) -> (same: bool) {
        *self == *rhs
    }

    fn copy(&self) -> (twin: Self) {
        *self
    }

    fn debug_text(&self) -> (text: String) {
        unsigned_debug_text(*self as u128)
    }
}

impl PatchableField for i32 {
    open spec fn compare_spec(&self, rhs: &Self) -> bool {
        *self == *rhs
    }

    open spec fn debug_spec(&self) -> Text {
        signed_decimal(*self as int)
    }

    proof fn compare_reflexive(a: &Self) {
    }

    proof fn compare_symmetric(a: &Self, b: &Self) {
    }

    proof fn compare_transitive(a: &Self, b: &Self, c: &Self) {
    }

    fn compare(&self, rhs: &Self) -> (same: bool) {
        *self == *rhs
    }

    fn copy(&self) -> (twin: Self) {
        *self
    }

    fn debug_text(&self) -> (text: String) {
        signed_debug_text(*self as i128)
    }
}

impl PatchableField for u64 {
    open spec fn compare_spec(&self, rhs: &Self) -> bool {
        *self == *rhs
    }

    open spec fn debug_spec(&self) -> Text {
        decimal(*self as nat)
    }

    proof fn compare_reflexive(a: &Self) {
    }

    proof fn compare_symmetric(a: &Self, b: &Self) {
    }

    proof fn compare_transitive(a: &Self, b: &Self, c: &Self) {
    }

    fn compare(&self, rhs: &Self) -> (same: bool) {
        *self == *rhs
    }

    fn copy(&self) -> (twin: Self) {
        *self
    }

    fn debug_text(&self) -> (text: String) {
        unsigned_debug_text(*self as u128)
    }
}

impl PatchableField for i64 {
    open spec fn compare_spec(&self, rhs: &Self) -> bool {
        *self == *rhs
    }

    open spec fn debug_spec(&self) -> Text {
        signed_decimal(*self as int)
    }

    proof fn compare_reflexive(a: &Self) {
    }

    proof fn compare_symmetric(a: &Self, b: &Self) {
    }

    proof fn compare_transitive(a: &Self, b: &Self, c: &Self) {
    }

    fn compare(&self, rhs: &Self) -> (same: bool) {
        *self == *rhs
    }

    fn copy(&self) -> (twin: Self) {
        *self
    }

    fn debug_text(&self) -> (text: String) {
        signed_debug_text(*self as i128)
    }
}

impl PatchableField for u128 {
    open spec fn compare_spec(&self, rhs: &Self) -> bool {
        *self == *rhs
    }

    open spec fn debug_spec(&self) -> Text {
        decimal(*self as nat)
    }

    proof fn compare_reflexive(a: &Self) {
    }

    proof fn compare_symmetric(a: &Self, b: &Self) {
    }

    proof fn compare_transitive(a: &Self, b: &Self, c: &Self) {
    }

    fn compare(&self, rhs: &Self) -> (same: bool) {
        *self == *rhs
    }

    fn copy(&self) -> (twin: Self) {
        *self
    }

    fn debug_text(&self) -> (text: String) {
        unsigned_debug_text(*self)
    }
}

impl PatchableField for i128 {
    open spec fn compare_spec(&self, rhs: &Self) -> bool {
        *self == *rhs
    }

    open spec fn debug_spec(&self) -> Text {
        signed_decimal(*self as int)
    }

    proof fn compare_reflexive(a: &Self) {
    }

    proof fn compare_symmetric(a: &Self, b: &Self) {
    }

    proof fn compare_transitive(a: &Self, b: &Self, c: &Self) {
    }

    fn compare(&self, rhs: &Self) -> (same: bool) {
        *self == *rhs
    }

    fn copy(&self) -> (twin: Self) {
        *self
    }

    fn debug_text(&self) -> (text: String) {
        signed_debug_text(*self)
    }
}

impl PatchableField for usize {
    open spec fn compare_spec(&self, rhs: &Self) -> bool {
        *self == *rhs
    }

    open spec fn debug_spec(&self) -> Text {
        decimal(*self as nat)
    }

    proof fn compare_reflexive(a: &Self) {
    }

    proof fn compare_symmetric(a: &Self, b: &Self) {
    }

    proof fn compare_transitive(a: &Self, b: &Self, c: &Self) {
    }

    fn compare(&self, rhs: &Self) -> (same: bool) {
        *self == *rhs
    }

    fn copy(&self) -> (twin: Self) {
        *self
    }

    fn debug_text(&self) -> (text: String) {
        unsigned_debug_text(*self as u128)
    }
}

impl PatchableField for isize {
    open spec fn compare_spec(&self, rhs: &Self) -> bool {
        *self == *rhs
    }

    open spec fn debug_spec(&self) -> Text {
        signed_decimal(*self as int)
    }

    proof fn compare_reflexive(a: &Self) {
    }

    proof fn compare_symmetric(a: &Self, b: &Self) {
    }

    proof fn compare_transitive(a: &Self, b: &Self, c: &Self) {
    }

    fn compare(&self, rhs: &Self) -> (same: bool) {
        *self == *rhs
    }

    fn copy(&self) -> (twin: Self) {
        *self
    }

    fn debug_text(&self) -> (text: String) {
        signed_debug_text(*self as i128)
    }
}

impl PatchableField for bool {
    open spec fn compare_spec(&self, rhs: &Self) -> bool {
        *self == *rhs
    }

    open spec fn debug_spec(&self) -> Text {
        if *self {
            "true"@
        } else {
            "false"@
        }
    }

    proof fn compare_reflexive(a: &Self) {
    }

    proof fn compare_symmetric(a: &Self, b: &Self) {
    }

    proof fn compare_transitive(a: &Self, b: &Self, c: &Self) {
    }

    fn compare(&self, rhs: &Self) -> (same: bool) {
        *self == *rhs
    }

    fn copy(&self) -> (twin: Self) {
        *self
    }

    fn debug_text(&self) -> (text: String) {
        if *self {
            String::from_str("true")
        } else {
            String::from_str("false")
        }
    }
}

impl PatchableField for char {
    open spec fn compare_spec(&self, rhs: &Self) -> bool {
        *self == *rhs
    }

    open spec fn debug_spec(&self) -> Text {
        char_debug(*self)
    }

    proof fn compare_reflexive(a: &Self) {
    }

    proof fn compare_symmetric(a: &Self, b: &Self) {
    }

    proof fn compare_transitive(a: &Self, b: &Self, c: &Self) {
    }

    fn compare(&self, rhs: &Self) -> (same: bool) {
        *self == *rhs
    }

    fn copy(&self) -> (twin: Self) {
        *self
    }

    fn debug_text(&self) -> (text: String) {
        char_debug_text(*self)
    }
}

impl PatchableField for String {
    open spec fn compare_spec(&self, rhs: &Self) -> bool {
        self@ == rhs@
    }

    open spec fn debug_spec(&self) -> Text {
        str_debug(self@)
    }

    proof fn compare_reflexive(a: &Self) {
    }

    proof fn compare_symmetric(a: &Self, b: &Self) {
    }

    proof fn compare_transitive(a: &Self, b: &Self, c: &Self) {
    }

    fn compare(&self, rhs: &Self) -> (same: bool) {
        *self == *rhs
    }

    fn copy(&self) -> (twin: Self) {
        self.clone()
    }

    fn debug_text(&self) -> (text: String) {
        str_debug_text(self.as_str())
    }
}

impl<T: PatchableField> PatchableField for Option<T> {
    open spec fn compare_spec(&self, rhs: &Self) -> bool {
        match (*self, *rhs) {
            (Some(a), Some(b)) => a.compare_spec(&b),
            (None, None) => true,
            _ => false,
        }
    }

    open spec fn debug_spec(&self) -> Text {
        match *self {
            Some(a) => "Some("@ + a.debug_spec() + ")"@,
            None => "None"@,
        }
    }

    proof fn compare_reflexive(a: &Self) {
        if let Some(x) = *a {
            T::compare_reflexive(&x);
        }
    }

    proof fn compare_symmetric(a: &Self, b: &Self) {
        if let (Some(x), Some(y)) = (*a, *b) {
            T::compare_symmetric(&x, &y);
        }
    }

    proof fn compare_transitive(a: &Self, b: &Self, c: &Self) {
        if let (Some(x), Some(y), Some(z)) = (*a, *b, *c) {
            T::compare_transitive(&x, &y, &z);
        }
    }

    fn compare(&self, rhs: &Self) -> (same: bool) {
        match (self, rhs) {
            (Some(a), Some(b)) => a.compare(b),
            (None, None) => true,
            _ => false,
        }
    }

    fn copy(&self) -> (twin: Self) {
        match self {
            Some(a) => Some(a.copy()),
            None => None,
        }
    }

    fn debug_text(&self) -> (text: String) {
        match self {
            Some(a) => {
                let mut text = String::from_str("Some(");
                text.append(a.debug_text().as_str());
                text.append(")");
                text
            },
            None => String::from_str("None"),
        }
    }
}

impl<O: PatchableField, E: PatchableField> PatchableField for Result<O, E> {
    open spec fn compare_spec(&self, rhs: &Self) -> bool {
        match (*self, *rhs) {
            (Ok(a), Ok(b)) => a.compare_spec(&b),
            (Err(a), Err(b)) => a.compare_spec(&b),
            _ => false,
        }
    }

    open spec fn debug_spec(&self) -> Text {
        match *self {
            Ok(a) => "Ok("@ + a.debug_spec() + ")"@,
            Err(a) => "Err("@ + a.debug_spec() + ")"@,
        }
    }

    proof fn compare_reflexive(a: &Self) {
        match *a {
            Ok(x) => O::compare_reflexive(&x),
            Err(x) => E::compare_reflexive(&x),
        }
    }

    proof fn compare_symmetric(a: &Self, b: &Self) {
        match (*a, *b) {
            (Ok(x), Ok(y)) => O::compare_symmetric(&x, &y),
            (Err(x), Err(y)) => E::compare_symmetric(&x, &y),
            _ => {},
        }
    }

    proof fn compare_transitive(a: &Self, b: &Self, c: &Self) {
        match (*a, *b, *c) {
            (Ok(x), Ok(y), Ok(z)) => O::compare_transitive(&x, &y, &z),
            (Err(x), Err(y), Err(z)) => E::compare_transitive(&x, &y, &z),
            _ => {},
        }
    }

    fn compare(&self, rhs: &Self) -> (same: bool) {
        match (self, rhs) {
            (Ok(a), Ok(b)) => a.compare(b),
            (Err(a), Err(b)) => a.compare(b),
            _ => false,
        }
    }

    fn copy(&self) -> (twin: Self) {
        match self {
            Ok(a) => Ok(a.copy()),
            Err(a) => Err(a.copy()),
        }
    }

    fn debug_text(&self) -> (text: String) {
        match self {
            Ok(a) => {
                let mut text = String::from_str("Ok(");
                text.append(a.debug_text().as_str());
                text.append(")");
                text
            },
            Err(a) => {
                let mut text = String::from_str("Err(");
                text.append(a.debug_text().as_str());
                text.append(")");
                text
            },
        }
    }
}

/// The texts of `items` in order, with a comma and a space between each two.
pub open spec fn list_text<T: PatchableField>(items: Seq<T>) -> Seq<char>
    decreases items.len(),
{
    if items.len() == 0 {
        Seq::empty()
    } else if items.len() == 1 {
        items[0].debug_spec()
    } else {
        list_text(items.drop_last()) + ", "@ + items.last().debug_spec()
    }
}

impl<T: PatchableField> PatchableField for Vec<T> {
    open spec fn compare_spec(&self, rhs: &Self) -> bool {
        &&& self@.len() == rhs@.len()
        &&& forall|i: int| 0 <= i < self@.len() ==> (#[trigger] self@[i]).compare_spec(&rhs@[i])
    }

    open spec fn debug_spec(&self) -> Text {
        "["@ + list_text(self@) + "]"@
    }

    proof fn compare_reflexive(a: &Self) {
        assert forall|i: int| 0 <= i < a@.len() implies (#[trigger] a@[i]).compare_spec(&a@[i]) by {
            T::compare_reflexive(&a@[i]);
        }
    }

    proof fn compare_symmetric(a: &Self, b: &Self) {
        assert forall|i: int| 0 <= i < b@.len() implies (#[trigger] b@[i]).compare_spec(&a@[i]) by {
            assert(a@[i].compare_spec(&b@[i]));
            T::compare_symmetric(&a@[i], &b@[i]);
        }
    }

    proof fn compare_transitive(a: &Self, b: &Self, c: &Self) {
        assert forall|i: int| 0 <= i < a@.len() implies (#[trigger] a@[i]).compare_spec(&c@[i]) by {
            assert(a@[i].compare_spec(&b@[i]));
            assert(b@[i].compare_spec(&c@[i]));
            T::compare_transitive(&a@[i], &b@[i], &c@[i]);
        }
    }

    fn compare(&self, rhs: &Self) -> (same: bool) {
        if self.len() != rhs.len() {
            return false;
        }
        let mut i: usize = 0;
        while i < self.len()
            invariant
                i <= self@.len(),
                self@.len() == rhs@.len(),
                forall|j: int| 0 <= j < i ==> (#[trigger] self@[j]).compare_spec(&rhs@[j]),
            decreases self@.len() - i,
        {
            if !self[i].compare(&rhs[i]) {
                return false;
            }
            i += 1;
        }
        true
    }

    fn copy(&self) -> (twin: Self) {
        let mut twin: Vec<T> = Vec::new();
        let mut i: usize = 0;
        while i < self.len()
            invariant
                i <= self@.len(),
                twin@.len() == i,
                forall|j: int| 0 <= j < i ==> (#[trigger] self@[j]).compare_spec(&twin@[j]),
            decreases self@.len() - i,
        {
            twin.push(self[i].copy());
            i += 1;
        }
        twin
    }

    fn debug_text(&self) -> (text: String) {
        let mut text = String::from_str("[");
        let mut i: usize = 0;
        assert(text@ =~= "["@ + list_text(self@.subrange(0, 0)));
        while i < self.len()
            invariant
                i <= self@.len(),
                text@ == "["@ + list_text(self@.subrange(0, i as int)),
            decreases self@.len() - i,
        {
            let ghost before = self@.subrange(0, i as int);
            let ghost after = self@.subrange(0, i + 1);
            if i > 0 {
                text.append(", ");
            }
            text.append(self[i].debug_text().as_str());
            assert(after.drop_last() =~= before);
            assert(after.last() == self@[i as int]);
            assert(text@ =~= "["@ + list_text(after));
            i += 1;
        }
        assert(self@.subrange(0, i as int) =~= self@);
        text.append("]");
        text
    }
}

impl<A: PatchableField, B: PatchableField> PatchableField for (A, B) {
    open spec fn compare_spec(&self, rhs: &Self) -> bool {
        self.0.compare_spec(&rhs.0) && self.1.compare_spec(&rhs.1)
    }

    open spec fn debug_spec(&self) -> Text {
        "("@ + self.0.debug_spec() + ", "@ + self.1.debug_spec() + ")"@
    }

    proof fn compare_reflexive(a: &Self) {
        A::compare_reflexive(&a.0);
        B::compare_reflexive(&a.1);
    }

    proof fn compare_symmetric(a: &Self, b: &Self) {
        A::compare_symmetric(&a.0, &b.0);
        B::compare_symmetric(&a.1, &b.1);
    }

    proof fn compare_transitive(a: &Self, b: &Self, c: &Self) {
        A::compare_transitive(&a.0, &b.0, &c.0);
        B::compare_transitive(&a.1, &b.1, &c.1);
    }

    fn compare(&self, rhs: &Self) -> (same: bool) {
        self.0.compare(&rhs.0) && self.1.compare(&rhs.1)
    }

    fn copy(&self) -> (twin: Self) {
        (self.0.copy(), self.1.copy())
    }

    fn debug_text(&self) -> (text: String) {
        let mut text = String::from_str("(");
        text.append(self.0.debug_text().as_str());
        text.append(", ");
        text.append(self.1.debug_text().as_str());
        text.append(")");
        text
    }
}

impl<A: PatchableField, B: PatchableField, C: PatchableField> PatchableField for (A, B, C) {
    open spec fn compare_spec(&self, rhs: &Self) -> bool {
        self.0.compare_spec(&rhs.0) && self.1.compare_spec(&rhs.1) && self.2.compare_spec(&rhs.2)
    }

    open spec fn debug_spec(&self) -> Text {
        "("@ + self.0.debug_spec() + ", "@ + self.1.debug_spec() + ", "@ + self.2.debug_spec()
            + ")"@
    }

    proof fn compare_reflexive(a: &Self) {
        A::compare_reflexive(&a.0);
        B::compare_reflexive(&a.1);
        C::compare_reflexive(&a.2);
    }

    proof fn compare_symmetric(a: &Self, b: &Self) {
        A::compare_symmetric(&a.0, &b.0);
        B::compare_symmetric(&a.1, &b.1);
        C::compare_symmetric(&a.2, &b.2);
    }

    proof fn compare_transitive(a: &Self, b: &Self, c: &Self) {
        A::compare_transitive(&a.0, &b.0, &c.0);
        B::compare_transitive(&a.1, &b.1, &c.1);
        C::compare_transitive(&a.2, &b.2, &c.2);
    }

    fn compare(&self, rhs: &Self) -> (same: bool) {
        self.0.compare(&rhs.0) && self.1.compare(&rhs.1) && self.2.compare(&rhs.2)
    }

    fn copy(&self) -> (twin: Self) {
        (self.0.copy(), self.1.copy(), self.2.copy())
    }

    fn debug_text(&self) -> (text: String) {
        let mut text = String::from_str("(");
        text.append(self.0.debug_text().as_str());
        text.append(", ");
        text.append(self.1.debug_text().as_str());
        text.append(", ");
        text.append(self.2.debug_text().as_str());
        text.append(")");
        text
    }
}

impl<A: PatchableField, B: PatchableField, C: PatchableField, D: PatchableField> PatchableField for (
    A,
    B,
    C,
    D,
) {
    open spec fn compare_spec(&self, rhs: &Self) -> bool {
        self.0.compare_spec(&rhs.0) && self.1.compare_spec(&rhs.1) && self.2.compare_spec(&rhs.2)
            && self.3.compare_spec(&rhs.3)
    }

    open spec fn debug_spec(&self) -> Text {
        "("@ + self.0.debug_spec() + ", "@ + self.1.debug_spec() + ", "@ + self.2.debug_spec()
            + ", "@ + self.3.debug_spec() + ")"@
    }

    proof fn compare_reflexive(a: &Self) {
        A::compare_reflexive(&a.0);
        B::compare_reflexive(&a.1);
        C::compare_reflexive(&a.2);
        D::compare_reflexive(&a.3);
    }

    proof fn compare_symmetric(a: &Self, b: &Self) {
        A::compare_symmetric(&a.0, &b.0);
        B::compare_symmetric(&a.1, &b.1);
        C::compare_symmetric(&a.2, &b.2);
        D::compare_symmetric(&a.3, &b.3);
    }

    proof fn compare_transitive(a: &Self, b: &Self, c: &Self) {
        A::compare_transitive(&a.0, &b.0, &c.0);
        B::compare_transitive(&a.1, &b.1, &c.1);
        C::compare_transitive(&a.2, &b.2, &c.2);
        D::compare_transitive(&a.3, &b.3, &c.3);
    }

    fn compare(&self, rhs: &Self) -> (same: bool) {
        self.0.compare(&rhs.0) && self.1.compare(&rhs.1) && self.2.compare(&rhs.2)
            && self.3.compare(&rhs.3)
    }

    fn copy(&self) -> (twin: Self) {
        (self.0.copy(), self.1.copy(), self.2.copy(), self.3.copy())
    }

    fn debug_text(&self) -> (text: String) {
        let mut text = String::from_str("(");
        text.append(self.0.debug_text().as_str());
        text.append(", ");
        text.append(self.1.debug_text().as_str());
        text.append(", ");
        text.append(self.2.debug_text().as_str());
        text.append(", ");
        text.append(self.3.debug_text().as_str());
        text.append(")");
        text
    }
}

} // verus!
