//! Messages of the service: an incorporation.

use vstd::prelude::*;
use crate::decimal::Decimal;
use crate::proto::company_incorporation::{CompanyType, CountryOfIncorporation, NoPSCStatement};
use crate::time::Date;

verus! {

#[derive(Clone, Copy, Debug, PartialEq, Eq, Structural)]
pub enum Articles {
    NoArticles,
    ModelByShares,
    ModelByGuarantee,
    ModelPlc,
    AmendedByShares,
    AmendedByGuarantee,
    AmendedPlc,
    Bespoke,
}

#[derive(Clone, Copy, Debug, PartialEq, Eq, Structural)]
pub enum MemorandumStatement {
    NoMemorandumStatement,
    MemberWithShares,
    MemberWithoutShares,
}

#[derive(Clone, Debug)]
pub struct CorporateName {
    pub corporate_name: String,
    pub person: Option<super::base_types::Person>,
}

#[derive(Clone, Debug)]
pub enum PersonNameValue {
    Person(super::base_types::Person),
    Corporate(CorporateName),
}

#[derive(Clone, Debug)]
pub struct Authorizer {
    pub name: Option<PersonNameValue>,
    pub personal_attributes: Vec<super::base_types::PersonalAttribute>,
}

#[derive(Clone, Debug)]
pub struct Person {
    pub name: Option<PersonNameValue>,
    pub address: Option<super::base_types::BaseAddress>,
    pub personal_attributes: Vec<super::base_types::PersonalAttribute>,
    pub member_class: String,
}

#[derive(Clone, Debug)]
pub struct Agent {
    pub authorizer: Option<Authorizer>,
    pub address: Option<super::base_types::BaseAddress>,
}

#[derive(Clone, Debug)]
pub struct AuthorizerSubscribers {
    pub subscribers: Vec<Authorizer>,
}

#[derive(Clone, Debug)]
pub enum AuthorizerValue {
    Agent(Agent),
    Solicitor(Authorizer),
    Member(Authorizer),
    AuthorizerSubscribers(AuthorizerSubscribers),
}

#[derive(Clone, Debug)]
pub struct Appointment {
    pub consent_to_act: bool,
    pub appointment: Option<super::officer_appointment::Appointment>,
}

#[derive(Clone, Debug)]
pub struct Psc {
    pub notification: Option<super::psc::Notification>,
    pub nature_of_control: Option<super::psc::NatureOfControls>,
}

#[derive(Clone, Debug)]
pub struct Pscs {
    pub pscs: Vec<Psc>,
}

#[derive(Clone, Debug)]
pub enum PscValue {
    PscStatement(Option<NoPSCStatement>),
    Pscs(Pscs),
}

#[derive(Clone, Debug)]
pub struct Allotment {
    pub share_class: String,
    pub num_shares: Decimal,
    pub amount_paid_due_per_share: Decimal,
    pub amount_unpaid_per_share: Decimal,
    pub share_currency: String,
    pub share_value: Decimal,
    pub share_reference: String,
}

#[derive(Clone, Debug)]
pub struct Subscriber {
    pub person: Option<Person>,
    pub allotments: Vec<Allotment>,
    pub memorandum_statement: Option<MemorandumStatement>,
}

#[derive(Clone, Debug)]
pub struct Guarantor {
    pub person: Option<Person>,
    pub amount_guaranteed: String,
    pub memorandum_statement: Option<MemorandumStatement>,
}

#[derive(Clone, Debug)]
pub struct HmrcAddress {
    pub address_line_1: String,
    pub address_line_2: String,
    pub address_line_3: String,
    pub address_line_4: String,
    pub post_code: String,
    pub country: String,
}

#[derive(Clone, Debug)]
pub struct TakenOverBusiness {
    pub previous_business_name: String,
    pub previous_owner_name: String,
    pub previous_business_type: String,
    pub previous_company_registration_number: String,
    pub previous_address: Option<HmrcAddress>,
    pub previous_owner_address: Option<HmrcAddress>,
}

#[derive(Clone, Debug)]
pub enum PrincipalPlaceOfBusiness {
    PrincipalPlaceOfBusinessSameAsRegisteredOffice(bool),
    PrincipalPlaceOfBusinessAddress(HmrcAddress),
}

#[derive(Clone, Debug)]
pub struct CorporationTaxRegistration {
    pub abbreviated_company_name: String,
    pub first_accounting_period_start_date: Option<Date>,
    pub accounts_made_up_date: Option<Date>,
    pub ct61_may_apply: bool,
    pub principal_place_of_business: Option<PrincipalPlaceOfBusiness>,
    pub taken_over_business: Option<TakenOverBusiness>,
}

#[derive(Clone, Debug)]
pub struct CompanyIncorporation {
    pub company_name: String,
    pub appointments: Vec<Appointment>,
    pub memorandum: Option<super::base_types::Document>,
    pub same_name: Option<super::base_types::Document>,
    pub name_authorization: Option<super::base_types::Document>,
    pub articles_doc: Option<super::base_types::Document>,
    pub cic36: Option<super::base_types::Document>,
    pub company_type: Option<CompanyType>,
    pub contact_name: String,
    pub contact_number: String,
    pub language: Option<super::form_submission::Language>,
    pub customer_reference: Option<String>,
    pub date_signed: Option<Date>,
    pub registers_held_on_public_record: Vec<Option<super::base_types::Register>>,
    pub country_of_incorporation: Option<CountryOfIncorporation>,
    pub registered_office: Option<super::base_types::UkAddress>,
    pub articles: Option<Articles>,
    pub restricted_articles: bool,
    pub psc: Option<PscValue>,
    pub statement_of_capital: Vec<super::base_types::Capital>,
    pub subscribers: Vec<Subscriber>,
    pub guarantors: Vec<Guarantor>,
    pub authorizer: Option<AuthorizerValue>,
    pub same_day: bool,
    pub reject_reference: Option<String>,
    pub sic_codes: Vec<String>,
    pub single_member_company: Option<bool>,
    pub corporation_tax_registration: Option<CorporationTaxRegistration>,
}

} // verus!
