//! On the wire: an incorporation.

use vstd::prelude::*;

verus! {

#[derive(Clone, Debug)]
pub struct CompanyIncorporation {
    pub company_type: CompanyType,
    pub cic: bool,
    pub registers_held_on_public_record: Option<RegistersHeldOnPublicRecord>,
    pub country_of_incorporation: CountryOfIncorporation,
    pub registered_office: super::base_types::UKAddress,
    pub data_memorandum: bool,
    pub articles: Option<Articles>,
    pub restricted_articles: bool,
    pub appointments: Vec<Appointment>,
    pub pscs: PSCs,
    pub statement_of_capital: Option<super::base_types::StatementOfCapital>,
    pub subscribers: Vec<Subscriber>,
    pub guarantors: Vec<Guarantor>,
    pub authoriser: Authoriser,
    pub same_day: bool,
    pub same_name: bool,
    pub name_authorisation: bool,
    pub reject_reference: Option<String>,
    pub sic_codes: Option<super::base_types::SICCodes>,
    pub single_member_company: Option<bool>,
}

#[derive(Clone, Copy, Debug, PartialEq, Eq, Structural)]
pub enum CompanyType {
    Plc,
    LimitedByShares,
    LimitedByGuarantee,
    LimitedByGuaranteeExempt,
    Llp,
    LLPOnlyDesignated
}

#[derive(Clone, Debug)]
pub struct RegistersHeldOnPublicRecord {
    pub llp_members: bool,
    pub llp_members_ura: bool,
    pub directors: bool,
    pub directors_ura: bool,
    pub secretaries: bool,
    pub members: bool,
    pub psc: Option<PSCRegister>
}

#[derive(Clone, Debug)]
pub struct PSCRegister {
    pub state_no_objection: bool
}

#[derive(Clone, Copy, Debug, PartialEq, Eq, Structural)]
pub enum CountryOfIncorporation {
    EnglandAndWales,
    Scotland,
    Wales,
    NorthernIreland
}

#[derive(Clone, Copy, Debug, PartialEq, Eq, Structural)]
pub enum Articles {
    ModelByShares,
    ModelByGuarantee,
    ModelPLC,
    AmendedByShares,
    AmendedByGuarantee,
    AmendedPLC,
    Bespoke,
}

#[derive(Clone, Debug)]
pub struct Appointment {
    pub consent_to_act: bool,
    pub appointment: AppointmentType
}

#[derive(Clone, Debug)]
pub enum AppointmentType {
    Director(super::base_types::DirectorAppointmentType),
    Secretary(super::base_types::SecretaryAppointmentType),
    Member(Box<super::base_types::MemberAppointmentType>)
}

#[derive(Clone, Debug)]
pub enum PSCs {
    NoPSCStatement(NoPSCStatement),
    PSCs(Vec<Psc>),
}

#[derive(Clone, Copy, Debug, PartialEq, Eq, Structural)]
pub enum NoPSCStatement {
    NoPSC
}

#[derive(Clone, Debug)]
pub struct Psc {
    pub notification: PSCNotification
}

#[derive(Clone, Debug)]
pub struct PSCNotification {
    pub notification: PSCNotificationType,
    pub nature_of_control: super::psc::PSCNatureOfControls,
}

#[derive(Clone, Debug)]
pub enum PSCNotificationType {
    Corporate(super::psc::PSCCorporateEntity),
    LegalPerson(super::psc::PSCLegalPerson),
    Individual(Box<PSCIndividual>),
}

#[derive(Clone, Debug)]
pub struct PSCIndividual {
    pub individual: super::psc::PSCIndividual<super::base_types::PersonType2>,
    pub consent_statement: bool
}

#[derive(Clone, Debug)]
pub struct IncorporationPerson {
    pub name: IncorporationPersonName,
    pub address: super::base_types::BaseAddress,
    pub authentication: Vec<super::base_types::PersonalAttribute>,
    pub member_class: Option<String>
}

#[derive(Clone, Debug)]
pub struct Subscriber {
    pub person: IncorporationPerson,
    pub shares: Vec<super::base_types::Allotment>,
    pub memorandum_statement: Option<MemorandumStatement>
}

#[derive(Clone, Debug)]
pub struct Guarantor {
    pub person: IncorporationPerson,
    pub amount_guaranteed: String,
    pub memorandum_statement: Option<MemorandumStatement>
}

#[derive(Clone, Copy, Debug, PartialEq, Eq, Structural)]
pub enum MemorandumStatement {
    MemberWithoutShares,
    MemberWithShares
}

#[derive(Clone, Debug)]
pub enum IncorporationPersonName {
    Person(super::base_types::Person),
    Corporate(CorporateName)
}

#[derive(Clone, Debug)]
pub enum Authoriser {
    Agent(Agent),
    Solicitor(AuthoriserType),
    Member(AuthoriserType),
    Subscribers(AuthoriserSubscribers)
}

#[derive(Clone, Debug)]
pub struct Agent {
    pub authoriser: AuthoriserType,
    pub address: super::base_types::BaseAddress,
}

#[derive(Clone, Debug)]
pub struct AuthoriserType {
    pub name: IncorporationPersonName,
    pub authentication: Vec<super::base_types::PersonalAttribute>
}

#[derive(Clone, Debug)]
pub struct CorporateName {
    pub person_name: super::base_types::Person,
    pub corporate_name: String
}

#[derive(Clone, Debug)]
pub struct AuthoriserSubscribers {
    pub subscribers: Vec<AuthoriserType>,
}

} // verus!
