//! Messages of the service: the parts that many messages share: addresses, names, officers, capital.

use vstd::prelude::*;
use crate::decimal::Decimal;
use crate::time::Date;

verus! {

#[derive(Clone, Copy, Debug, PartialEq, Eq, Structural)]
pub enum CompanyType {
    CompanyEnglandAndWales,
    CompanyScotland,
    CompanyNorthernIreland,
    CompanyIreland,
    LimitedLiabilityPartnershipEnglandAndWales,
    LimitedLiabilityPartnershipScotland,
    LimitedLiabilityPartnershipNorthernIreland,
}

#[derive(Clone, Copy, Debug, PartialEq, Eq, Structural)]
pub enum RecordType {
    Directors,
    DirectorsServiceContracts,
    DirectorsIndemnities,
    Members,
    Secretaries,
    RegisterOfInterests,
    PersonsOfSignificantControl,
    InvestigationReports,
    OwnShareCapital,
    OwnSharePurchaseContracts,
    RegisterOfChargesEnglandWalesAndNorthernIreland,
    RegisterOfChargesScotland,
    DebentureHolders,
    ResolutionsAndMeetings,
    LlpMembers,
}

#[derive(Clone, Copy, Debug, PartialEq, Eq, Structural)]
pub enum Register {
    Directors,
    DirectorsUsualResidentialAddress,
    Secretaries,
    Members,
    PersonsOfSignificantControl,
    LlpMembers,
    LlpMembersUsualResidentialAddress,
}

#[derive(Clone, Copy, Debug, PartialEq, Eq, Structural)]
pub enum ContentType {
    Pdf,
    Pcl,
}

#[derive(Clone, Copy, Debug, PartialEq, Eq, Structural)]
pub enum UkAddressCountry {
    Undefined,
    England,
    Wales,
    Scotland,
    NorthernIreland,
    Uk,
}

#[derive(Clone, Debug)]
pub struct UkAddress {
    pub premise: String,
    pub street: String,
    pub thoroughfare: String,
    pub post_town: String,
    pub county: String,
    pub country: Option<UkAddressCountry>,
    pub postcode: String,
    pub care_of_name: String,
    pub po_box: String,
}

#[derive(Clone, Debug)]
pub struct BaseAddress {
    pub premise: String,
    pub street: String,
    pub thoroughfare: String,
    pub post_town: String,
    pub county: String,
    /// An ISO 3166 code, or one of `GB-ENG`, `GB-SCO`, `GB-WLS` and `GB-NIR`.
    pub country: String,
    pub postcode: String,
}

#[derive(Clone, Debug)]
pub struct CompanyAddress {
    pub base_address: Option<BaseAddress>,
    pub care_of_name: String,
    pub po_box: String,
}

#[derive(Clone, Debug)]
pub struct NonUkCompanyIdentification {
    pub place_registered: String,
    pub registration_number: String,
    pub governing_law: String,
    pub legal_form: String,
}

#[derive(Clone, Debug)]
pub enum CompanyIdentificationValue {
    UkRegistrationNumber(String),
    NonUk(NonUkCompanyIdentification),
}

#[derive(Clone, Debug)]
pub struct CompanyIdentification {
    pub company_identification: Option<CompanyIdentificationValue>,
}

#[derive(Clone, Debug)]
pub struct CorporateOfficer {
    pub corporate_name: String,
    pub address: Option<CompanyAddress>,
    pub company_identification: Option<CompanyIdentification>,
}

#[derive(Clone, Debug)]
pub struct PersonName {
    pub title: String,
    pub forenames: Vec<String>,
    pub surname: String,
}

#[derive(Clone, Debug)]
pub struct Person {
    pub forename: String,
    pub surname: String,
}

#[derive(Clone, Debug)]
pub enum ServiceAddressValue {
    SameAsRegisteredOffice(bool),
    Address(CompanyAddress),
}

#[derive(Clone, Debug)]
pub struct ServiceAddress {
    pub value: Option<ServiceAddressValue>,
}

#[derive(Clone, Debug)]
pub struct ResidentialAddressAddress {
    pub address: Option<BaseAddress>,
    pub secure_address: Option<bool>,
}

#[derive(Clone, Debug)]
pub enum ResidentialAddressValue {
    SameAsServiceAddress(bool),
    Address(ResidentialAddressAddress),
}

#[derive(Clone, Debug)]
pub struct ResidentialAddress {
    pub value: Option<ResidentialAddressValue>,
}

#[derive(Clone, Debug)]
pub struct PreviousName {
    pub forename: String,
    pub surname: String,
}

#[derive(Clone, Debug)]
pub struct Share {
    pub share_class: String,
    pub num_shares: Decimal,
    pub aggregate_nominal_value: Decimal,
    pub prescribed_particulars: String,
}

#[derive(Clone, Debug)]
pub struct Capital {
    pub currency: String,
    pub total_aggregate_nominal_value: Decimal,
    pub total_number_of_shares_issued: Decimal,
    pub total_amount_unpaid: Decimal,
    pub shares: Vec<Share>,
}

#[derive(Clone, Copy, Debug, PartialEq, Eq, Structural)]
pub enum PersonalAttributeType {
    BirthTown,
    Telephone,
    NationalInsurance,
    PassportNumber,
    MothersMaiden,
    FathersForename,
}

#[derive(Clone, Debug)]
pub struct DirectorPerson {
    pub person: Option<PersonName>,
    pub service_address: Option<ServiceAddress>,
    pub date_of_birth: Option<Date>,
    pub nationality: String,
    pub occupation: String,
    pub country_of_residence: String,
    pub previous_names: Vec<PreviousName>,
    pub residential_address: Option<ResidentialAddress>,
}

#[derive(Clone, Debug)]
pub struct SecretaryPerson {
    pub person: Option<PersonName>,
    pub service_address: Option<ServiceAddress>,
    pub previous_names: Vec<PreviousName>,
}

#[derive(Clone, Debug)]
pub struct MemberPerson {
    pub person: Option<PersonName>,
    pub service_address: Option<ServiceAddress>,
    pub date_of_birth: Option<Date>,
    pub country_of_residence: String,
    pub previous_names: Vec<PreviousName>,
    pub residential_address: Option<ResidentialAddress>,
}

#[derive(Clone, Debug)]
pub struct PartsName {
    pub forenames: Vec<String>,
    pub surname: String,
}

#[derive(Clone, Debug)]
pub enum ShareholderName {
    PartsName(PartsName),
    AmalgamatedName(String),
}

#[derive(Clone, Debug)]
pub struct Shareholder {
    pub name: Option<ShareholderName>,
    pub address: Option<BaseAddress>,
}

#[derive(Clone, Debug)]
pub struct PartialDob {
    pub month: u32,
    pub year: u64,
}

#[derive(Clone, Debug)]
pub struct PersonalAttribute {
    pub personal_attribute: Option<PersonalAttributeType>,
    pub personal_data: String,
}

/// A document that comes with a form: its content, the date it bears, the
/// name of its file and the kind of its content.
#[derive(Clone, Debug)]
pub struct Document {
    pub data: Vec<u8>,
    pub date: Option<Date>,
    pub filename: String,
    pub content_type: Option<ContentType>,
}

} // verus!
