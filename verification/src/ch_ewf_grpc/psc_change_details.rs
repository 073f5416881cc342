//! Messages of the service: a change in the details of a person with significant control.

use vstd::prelude::*;
use crate::time::Date;

verus! {

#[derive(Clone, Debug)]
pub struct CorporateChange {
    pub corporate_name: String,
    pub new_corporate_name: Option<String>,
    pub new_address: Option<super::base_types::CompanyAddress>,
    pub new_corporate_identification: Option<super::psc::CorporateIdentification>,
    pub new_nature_of_controls: Option<super::psc::NatureOfControls>,
}

#[derive(Clone, Debug)]
pub struct LegalPersonChange {
    pub legal_person_name: String,
    pub new_legal_person_name: Option<String>,
    pub new_address: Option<super::base_types::CompanyAddress>,
    pub new_legal_person_identification: Option<super::psc::LegalPersonIdentification>,
    pub new_nature_of_controls: Option<super::psc::NatureOfControls>,
}

#[derive(Clone, Debug)]
pub struct IndividualChange {
    pub identification: Option<super::psc::IndividualIdentification>,
    pub new_name: Option<super::base_types::PersonName>,
    pub new_service_address: Option<super::base_types::ServiceAddress>,
    pub new_residential_address: Option<super::base_types::ResidentialAddress>,
    pub new_nationality: Option<String>,
    pub new_country_of_residence: Option<String>,
    pub new_nature_of_controls: Option<super::psc::NatureOfControls>,
}

#[derive(Clone, Debug)]
pub enum Entity {
    Corporate(CorporateChange),
    LegalPerson(LegalPersonChange),
    Individual(IndividualChange),
}

#[derive(Clone, Debug)]
pub struct PscChangeDetails {
    pub form_submission: Option<super::form_submission::FormSubmission>,
    pub entity: Option<Entity>,
    pub date_of_change: Option<Date>,
    pub register_entry_date: Option<Date>,
}

} // verus!
