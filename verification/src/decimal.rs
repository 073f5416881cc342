//! Decimal amounts as the gateway's schema has them: at most six digits after
//! the point, held exactly as a count of millionths.

use vstd::prelude::*;

verus! {

/// Millionths in one unit.
pub const MICROS_PER_UNIT: i128 = 1000000;

/// The largest total that a statement of capital may hold: twenty digits before the point and six after.
pub const MAX_TOTAL_MICROS: i128 = 99999999999999999999999999;

/// The largest amount that one class of share may hold: fifteen digits before the point and six after.
pub const MAX_AMOUNT_MICROS: i128 = 999999999999999999999;

/// A decimal amount, held as a whole number of millionths.
#[derive(Clone, Copy, Debug, PartialEq, Eq, Structural)]
pub struct Decimal {
    pub micros: i128,
}

impl Decimal {
    /// Whether the amount lies between zero and `max_micros` millionths, both included.
    pub open spec fn spec_in_range(self, max_micros: i128) -> bool {
        0 <= self.micros <= max_micros
    }

    #[verifier::when_used_as_spec(spec_in_range)]
    pub fn in_range(self, max_micros: i128) -> (r: bool)
        ensures
            r == self.spec_in_range(max_micros),
    {
        0 <= self.micros && self.micros <= max_micros
    }
}

} // verus!
