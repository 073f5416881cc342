//! The lifecycle status of a submission as it is stored.

use vstd::prelude::*;

verus! {

/// Where a submission stands. Every submission starts as `Pending`; the other
/// four are what the gateway reports back.
#[derive(Clone, Copy, Debug, PartialEq, Eq, Structural)]
pub enum Status {
    Pending,
    Accepted,
    Rejected,
    Parked,
    InternalFailure,
}

} // verus!
