//! Messages of the service: a company's data.

use vstd::prelude::*;
use crate::decimal::Decimal;
use crate::proto::company_data::{CompanyCategory, CompanyJurisdiction};
use crate::proto::psc::{CompanyLevelStatement, PSCLevelStatement};
use crate::time::Date;

verus! {

#[derive(Clone, Debug)]
pub struct CompanyDataRequest {
    pub company_number: u32,
    pub company_type: Option<super::base_types::CompanyType>,
    pub authentication_code: String,
    pub made_up_date: Option<Date>,
}

#[derive(Clone, Debug)]
pub struct CompanyDataPscNotification {
    pub notification: Option<super::psc::Notification>,
    pub nature_of_controls: Option<super::psc::NatureOfControls>,
    pub notification_date: Option<Date>,
    pub cessation_date: Option<Date>,
}

#[derive(Clone, Debug)]
pub enum CompanyPscValue {
    StatementNotification(PSCLevelStatement),
    SuperSecureIndividual(bool),
    LinkedStatementNotification(super::psc::LinkedStatement),
    Notification(CompanyDataPscNotification),
}

#[derive(Clone, Debug)]
pub struct CompanyPsc {
    pub psc: Option<CompanyPscValue>,
}

#[derive(Clone, Debug)]
pub struct CompanyPsCs {
    pub pscs: Vec<CompanyPsc>,
}

#[derive(Clone, Debug)]
pub enum Pscs {
    PscStatement(CompanyLevelStatement),
    CompanyPscs(CompanyPsCs),
}

#[derive(Clone, Debug)]
pub enum DirectorValue {
    Person(super::base_types::DirectorPerson),
    Corporate(super::base_types::CorporateOfficer),
}

#[derive(Clone, Debug)]
pub struct Director {
    pub value: Option<DirectorValue>,
    pub appointment_date: Option<Date>,
    pub resignation_date: Option<Date>,
}

#[derive(Clone, Debug)]
pub enum SecretaryValue {
    Person(super::base_types::SecretaryPerson),
    Corporate(super::base_types::CorporateOfficer),
}

#[derive(Clone, Debug)]
pub struct Secretary {
    pub value: Option<SecretaryValue>,
    pub appointment_date: Option<Date>,
    pub resignation_date: Option<Date>,
}

#[derive(Clone, Debug)]
pub enum MemberValue {
    Person(super::base_types::MemberPerson),
    Corporate(super::base_types::CorporateOfficer),
}

#[derive(Clone, Debug)]
pub struct Member {
    pub value: Option<MemberValue>,
    pub designated: bool,
}

#[derive(Clone, Debug)]
pub struct Shareholding {
    pub share_class: String,
    pub number_held: Decimal,
    pub shareholders: Vec<super::base_types::Shareholder>,
}

#[derive(Clone, Debug)]
pub struct CompanyDataResponse {
    pub transaction_id: String,
    pub company_number: u32,
    pub company_name: String,
    pub category: CompanyCategory,
    pub jurisdiction: CompanyJurisdiction,
    pub trading_on_market: bool,
    pub dtr5_applies: bool,
    pub made_up_date: Option<Date>,
    pub next_due_date: Option<Date>,
    pub psc_exempt_as_shared_admitted_on_market: bool,
    pub psc_exempt_as_trading_on_regulated_market: bool,
    pub psc_exempt_as_trading_on_uk_regulated_market: bool,
    pub sic_codes: Vec<String>,
    pub registered_office_address: Option<super::base_types::UkAddress>,
    pub sail_address: Option<super::base_types::UkAddress>,
    pub sail_records: Vec<super::base_types::RecordType>,
    pub pscs: Option<Pscs>,
    pub directors: Vec<Director>,
    pub secretaries: Vec<Secretary>,
    pub members: Vec<Member>,
    pub held_on_public_record: Vec<super::base_types::Register>,
    pub statement_of_capital: Vec<super::base_types::Capital>,
    pub shareholdings: Vec<Shareholding>,
}

} // verus!
