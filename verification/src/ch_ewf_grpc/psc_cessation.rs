//! Messages of the service: the ceasing of a person with significant control.

use vstd::prelude::*;
use crate::time::Date;

verus! {

#[derive(Clone, Debug)]
pub enum Entity {
    Corporate(String),
    LegalPerson(String),
    Individual(super::psc::IndividualIdentification),
}

#[derive(Clone, Debug)]
pub struct PscCessation {
    pub form_submission: Option<super::form_submission::FormSubmission>,
    pub entity: Option<Entity>,
    pub cessation_date: Option<Date>,
    pub register_entry_date: Option<Date>,
}

} // verus!
