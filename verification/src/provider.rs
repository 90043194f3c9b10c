//! The provider: the collaborator that decides whether a byte is zero.
//!
//! Its types have the shape of the application's own values but are distinct
//! from them, so that a conversion is always explicit.

use vstd::prelude::*;

verus! {

/// Provider input type.
pub struct Payload(pub u8);

/// Provider output type.
pub struct Outcome(pub bool);

/// Provider functionality: tells whether the payload's byte is zero.
pub fn functionality(payload: Payload) -> (outcome: Outcome)
    ensures
        outcome == Outcome(payload.0 == 0),
{
    Outcome(payload.0 == 0)
}

} // verus!
