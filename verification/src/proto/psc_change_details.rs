//! On the wire: a change in the details of a person with significant control.

use vstd::prelude::*;

verus! {

#[derive(Clone, Debug)]
pub struct PSCChangeDetails {
    pub entity: PSCEntity,
    pub date_of_change: crate::time::Date,
    pub register_entry_date: crate::time::Date,
}

#[derive(Clone, Debug)]
pub enum PSCEntity {
    Corporate(Corporate),
    LegalPerson(LegalPerson),
    Individual(Box<Individual>),
}

#[derive(Clone, Debug)]
pub struct Individual {
    pub identification: super::psc::PSCIdentification,
    pub change: Option<IndividualChange>
}

#[derive(Clone, Debug)]
pub struct IndividualChange {
    pub name: Option<super::base_types::PersonType>,
    pub service_address: Option<super::base_types::ServiceAddressType>,
    pub residential_address: Option<super::base_types::ResidentialAddressType>,
    pub nationality: Option<String>,
    pub country_of_residence: Option<String>,
    pub nature_of_controls: Option<super::psc::PSCNatureOfControls>
}

#[derive(Clone, Debug)]
pub struct Corporate {
    pub corporate_name: String,
    pub change: Option<CorporateChange>
}

#[derive(Clone, Debug)]
pub struct CorporateChange {
    pub corporate_name: Option<String>,
    pub address: Option<super::base_types::CompanyAddress>,
    pub company_identification: Option<super::psc::PSCCorporateIdentification>,
    pub nature_of_controls: Option<super::psc::PSCNatureOfControls>
}

#[derive(Clone, Debug)]
pub struct LegalPerson {
    pub legal_person_name: String,
    pub change: Option<LegalPersonChange>
}

#[derive(Clone, Debug)]
pub struct LegalPersonChange {
    pub legal_person_name: Option<String>,
    pub address: Option<super::base_types::CompanyAddress>,
    pub legal_person_identification: Option<super::psc::PSCLegalPersonIdentification>,
    pub nature_of_controls: Option<super::psc::PSCNatureOfControls>
}

} // verus!
