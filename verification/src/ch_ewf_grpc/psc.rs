//! Messages of the service: persons with significant control.

use vstd::prelude::*;
use crate::proto::psc::{
    CompanyLevelStatement, LLPNatureOfControlType, NatureOfControlType, PSCLevelStatement,
    PSCLinkedStatementType,
};
use crate::time::Date;

verus! {

#[derive(Clone, Debug)]
pub struct CorporateIdentification {
    pub place_registered: String,
    pub registration_number: String,
    pub law_governed: String,
    pub legal_form: String,
    pub country_or_state: String,
}

#[derive(Clone, Debug)]
pub struct LegalPersonIdentification {
    pub law_governed: String,
    pub legal_form: String,
}

#[derive(Clone, Debug)]
pub struct IndividualIdentification {
    pub name: Option<super::base_types::PersonName>,
    pub partial_dob: Option<super::base_types::PartialDob>,
}

#[derive(Clone, Debug)]
pub struct CorporateEntity {
    pub corporate_name: String,
    pub address: Option<super::base_types::CompanyAddress>,
    pub corporate_identification: Option<CorporateIdentification>,
}

#[derive(Clone, Debug)]
pub struct LegalPerson {
    pub name: String,
    pub address: Option<super::base_types::CompanyAddress>,
    pub legal_person_identification: Option<LegalPersonIdentification>,
}

#[derive(Clone, Debug)]
pub struct Individual {
    pub person: Option<super::base_types::PersonName>,
    pub service_address: Option<super::base_types::ServiceAddress>,
    pub date_of_birth: Option<Date>,
    pub nationality: String,
    pub country_of_residence: String,
    pub residential_address: Option<super::base_types::ResidentialAddress>,
    pub consent_statement: bool,
}

#[derive(Clone, Debug)]
pub enum NotificationPsc {
    Corporate(CorporateEntity),
    LegalPerson(LegalPerson),
    Individual(Individual),
}

#[derive(Clone, Debug)]
pub struct Notification {
    pub psc: Option<NotificationPsc>,
}

#[derive(Clone, Debug)]
pub struct CompanyNatureOfControls {
    pub nature_of_controls: Vec<Option<NatureOfControlType>>,
}

#[derive(Clone, Debug)]
pub struct LlpNatureOfControls {
    pub nature_of_controls: Vec<Option<LLPNatureOfControlType>>,
}

#[derive(Clone, Debug)]
pub enum NatureOfControlsValue {
    CompanyNatureOfControls(CompanyNatureOfControls),
    LlpNatureOfControls(LlpNatureOfControls),
}

#[derive(Clone, Debug)]
pub struct NatureOfControls {
    pub nature_of_controls: Option<NatureOfControlsValue>,
}

#[derive(Clone, Debug)]
pub enum LinkedStatementPsc {
    Individual(IndividualIdentification),
    CorporateName(String),
    LegalPersonName(String),
    SuperSecureIndividual(bool),
}

#[derive(Clone, Debug)]
pub struct LinkedStatement {
    pub statement: Option<PSCLinkedStatementType>,
    pub psc: Option<LinkedStatementPsc>,
}

#[derive(Clone, Debug)]
pub enum StatementNotificationValue {
    CompanyLevelStatement(Option<CompanyLevelStatement>),
    PscLevelStatement(Option<PSCLevelStatement>),
    LinkedStatement(LinkedStatement),
}

#[derive(Clone, Debug)]
pub struct StatementNotification {
    pub notification: Option<StatementNotificationValue>,
}

} // verus!
