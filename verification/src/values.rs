//! The application's value types.
//!
//! Both are plain wrappers: a value is what it wraps, and two values are equal
//! exactly when they wrap the same thing.

use vstd::prelude::*;
use vstd::std_specs::cmp::PartialEqSpec;

verus! {

/// An unsigned 8-bit value of the application.
#[derive(Debug)]
pub struct Byte(pub u8);

/// A truth value of the application.
#[derive(Debug)]
pub struct Boolean(pub bool);

impl PartialEq for Byte {
    fn eq(&self, other: &Self) -> (equal: bool)
        ensures
            equal == (self.0 == other.0),
    {
        self.0 == other.0
    }
}

impl Eq for Byte {}

impl vstd::std_specs::cmp::PartialEqSpecImpl for Byte {
    open spec fn obeys_eq_spec() -> bool {
        true
    }

    open spec fn eq_spec(&self, other: &Self) -> bool {
        self.0 == other.0
    }
}

impl PartialEq for Boolean {
    fn eq(&self, other: &Self) -> (equal: bool)
        ensures
            equal == (self.0 == other.0),
    {
        self.0 == other.0
    }
}

impl Eq for Boolean {}

impl vstd::std_specs::cmp::PartialEqSpecImpl for Boolean {
    open spec fn obeys_eq_spec() -> bool {
        true
    }

    open spec fn eq_spec(&self, other: &Self) -> bool {
        self.0 == other.0
    }
}

/// Equality of bytes is structural: `a == b` computes whether the two wrap the
/// same integer, which is also when they are the same value.
pub proof fn lemma_byte_equality(a: Byte, b: Byte)
    ensures
        Byte::obeys_eq_spec(),
        a.eq_spec(&b) <==> a.0 == b.0,
        a.eq_spec(&b) <==> a == b,
{
}

/// Equality of booleans is structural: `a == b` computes whether the two wrap
/// the same truth value, which is also when they are the same value.
pub proof fn lemma_boolean_equality(a: Boolean, b: Boolean)
    ensures
        Boolean::obeys_eq_spec(),
        a.eq_spec(&b) <==> a.0 == b.0,
        a.eq_spec(&b) <==> a == b,
{
}

} // verus!
