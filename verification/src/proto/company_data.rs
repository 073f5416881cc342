//! On the wire: a company's data.

use vstd::prelude::*;

verus! {

#[derive(Clone, Debug)]
pub struct CompanyDataRequest {
    pub company_number: u32,
    pub company_type: Option<super::base_types::CompanyType>,
    pub company_authentication_code: String,
    pub made_up_date: crate::time::Date,
}

#[derive(Clone, Debug)]
pub struct CompanyData {
    pub company_number: u32,
    pub company_name: String,
    pub company_category: CompanyCategory,
    pub jurisdiction: CompanyJurisdiction,
    pub trading_on_market: bool,
    pub dtr5_applies: bool,
    pub psc_exempt_as_trading_on_regulated_market: bool,
    pub psc_exempt_as_trading_on_uk_regulated_market: bool,
    pub psc_exempt_as_shares_admitted_on_market: bool,
    pub made_up_date: crate::time::Date,
    pub next_due_date: Option<crate::time::Date>,
    pub registered_office_address: super::base_types::UKAddress,
    pub sail_address: Option<super::base_types::UKAddress>,
    pub sail_records: Vec<CompanyDataSAILRecord>,
    pub sic_codes: CompanyDataSICCodes,
    pub officers: CompanyDataOfficers,
    pub pscs: Option<CompanyDataPSCs>,
    pub statement_of_captial: Option<super::base_types::StatementOfCapital>,
    pub shareholdings: Vec<CompanyDataShareholding>,
    pub registers: Option<CompanyDataRegisters>,
}

#[derive(Clone, Debug)]
pub struct CompanyDataSAILRecord {
    pub record_type: super::base_types::RecordType,
}

#[derive(Clone, Debug)]
pub struct CompanyDataSICCodes {
    pub codes: Vec<String>,
}

#[derive(Clone, Debug)]
pub struct CompanyDataOfficers {
    pub officers: Vec<CompanyDataOfficer>,
}

#[derive(Clone, Debug)]
pub enum CompanyDataOfficer {
    Director(Box<CompanyDataDirector>),
    Secretary(CompanyDataSecretary),
    Member(Box<CompanyDataMember>),
}

#[derive(Clone, Debug)]
pub struct CompanyDataDirector {
    pub director_type: CompanyDataDirectorType,
    pub appointment_date: crate::time::Date,
    pub resignation_date: Option<crate::time::Date>,
}

#[derive(Clone, Debug)]
pub struct CompanyDataSecretary {
    pub secretary_type: CompanyDataSecretaryType,
    pub appointment_date: crate::time::Date,
    pub resignation_date: Option<crate::time::Date>,
}

#[derive(Clone, Debug)]
pub struct CompanyDataMember {
    pub member_type: CompanyDataMemberType,
    pub designated: bool,
}

#[derive(Clone, Debug)]
pub enum CompanyDataDirectorType {
    Person(Box<CompanyDataDirectorPersonType>),
    Corporate(Box<super::base_types::CorporateOfficerType>),
}

#[derive(Clone, Debug)]
pub enum CompanyDataSecretaryType {
    Person(Box<super::base_types::SecretaryPersonType<super::base_types::PersonReturnType>>),
    Corporate(Box<super::base_types::CorporateOfficerType>),
}

#[derive(Clone, Debug)]
pub enum CompanyDataMemberType {
    Person(CompanyDataMemberPersonType),
    Corporate(super::base_types::CorporateOfficerType),
}

#[derive(Clone, Debug)]
pub struct CompanyDataDirectorPersonType {
    pub residential_address: Option<super::base_types::ResidentialAddressType>,
    pub person: super::base_types::DirectorPersonType<super::base_types::PersonReturnType>,
}

#[derive(Clone, Debug)]
pub struct CompanyDataMemberPersonType {
    pub residential_address: Option<super::base_types::ResidentialAddressType>,
    pub service_address: super::base_types::ServiceAddressType,
    pub date_of_birth: crate::time::Date,
    pub country_of_residence: Option<String>,
    pub person: super::base_types::PersonReturnType,
}

#[derive(Clone, Copy, Debug, PartialEq, Eq, Structural)]
pub enum CompanyCategory {
    Plc,
    ByShares,
    ByGuarantee,
    BySharesExemptUnderSection60,
    ByGuaranteeExemptUnderSection60,
    UnlimitedWithShareCapital,
    UnlimitedWithoutShareCapital,
    Llp
}

#[derive(Clone, Copy, Debug, PartialEq, Eq, Structural)]
pub enum CompanyJurisdiction {
    EnglandAndWales,
    Scotland,
    Wales,
    NorthernIreland,
    EuropeanUnion,
    UnitedKingdom,
    England,
    Other
}

#[derive(Clone, Debug)]
pub enum CompanyDataPSCs {
    CompanyStatement(super::psc::CompanyLevelStatement),
    PSCs(Vec<CompanyDataPSC>)
}

#[derive(Clone, Debug)]
pub enum CompanyDataPSC {
    StatementNotification(super::psc::PSCLevelStatement),
    LinkedStatementNotification(super::psc::PSCLinkedStatement),
    Notification(Box<CompanyDataPSCNotification>),
    SuperSecureIndividual(bool),
}

#[derive(Clone, Debug)]
pub struct CompanyDataPSCNotification {
    pub notification: super::psc::PSCNotificationType<super::base_types::PersonReturnType>,
    pub nature_of_control: super::psc::PSCNatureOfControls,
    pub notification_date: crate::time::Date,
    pub cessation_date: Option<crate::time::Date>,
}

#[derive(Clone, Debug)]
pub struct CompanyDataShareholding {
    pub share_class: String,
    pub num_held: crate::decimal::Decimal,
    pub shareholders: Vec<CompanyDataShareholder>
}

#[derive(Clone, Debug)]
pub struct CompanyDataShareholder {
    pub name: CompanyDataShareholderName,
    pub address: super::base_types::BaseAddress
}

#[derive(Clone, Debug)]
pub enum CompanyDataShareholderName {
    Name(CompanyDataShareholderNameParts),
    AmalgamatedName(String)
}

#[derive(Clone, Debug)]
pub struct CompanyDataShareholderNameParts {
    pub surname: String,
    pub forenames: Vec<String>
}

#[derive(Clone, Debug)]
pub struct CompanyDataRegisters {
    pub held_on_public_record: Vec<CompanyDataRegistersHeldOnPublicRecord>
}

#[derive(Clone, Debug)]
pub struct CompanyDataRegistersHeldOnPublicRecord {
    pub register_type: super::base_types::RegisterType
}

} // verus!
