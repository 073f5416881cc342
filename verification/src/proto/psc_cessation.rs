//! On the wire: the ceasing of a person with significant control.

use vstd::prelude::*;

verus! {

#[derive(Clone, Debug)]
pub struct PSCCessation {
    pub entity: PSCEntity,
    pub cessation_date: crate::time::Date,
    pub register_entry_date: crate::time::Date,
}

#[derive(Clone, Debug)]
pub enum PSCEntity {
    Corporate(Corporate),
    LegalPerson(LegalPerson),
    Individual(super::psc::PSCIdentification),
}

#[derive(Clone, Debug)]
pub struct Corporate {
    pub corporate_name: String,
}

#[derive(Clone, Debug)]
pub struct LegalPerson {
    pub legal_person_name: String,
}

} // verus!
