//! Messages of the service: a change of where records are kept.

use vstd::prelude::*;

verus! {

#[derive(Clone, Debug)]
pub struct Records {
    pub records: Vec<Option<super::base_types::RecordType>>,
}

#[derive(Clone, Debug)]
pub enum RegisteredOfficeMove {
    All(bool),
    Listed(Records),
}

#[derive(Clone, Debug)]
pub struct MoveToRegisteredOffice {
    pub records_move: Option<RegisteredOfficeMove>,
}

#[derive(Clone, Debug)]
pub enum Move {
    MoveToSail(Records),
    MoveToRegisteredOffice(MoveToRegisteredOffice),
}

#[derive(Clone, Debug)]
pub struct ChangeOfLocation {
    pub form_submission: Option<super::form_submission::FormSubmission>,
    pub location_move: Option<Move>,
}

} // verus!
