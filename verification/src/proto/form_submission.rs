//! On the wire: a form with its header and its documents.

use vstd::prelude::*;

verus! {

#[derive(Clone, Debug)]
pub struct FormSubmission {
    pub form_header: FormHeader,
    pub date_signed: crate::time::Date,
    pub form: Form,
    pub additional_information: Option<AdditionalInformation>,
    pub documents: Vec<Document>
}

#[derive(Clone, Debug)]
pub struct FormHeader {
    pub company_number: Option<u32>,
    pub company_type: Option<super::base_types::CompanyType>,
    pub company_name: String,
    pub company_authentication_code: Option<String>,
    pub package_reference: String,
    pub language: SubmissionLanguage,
    pub form_identifier: String,
    /// Fixed length: 6
    pub submission_number: String,
    pub contact_name: Option<String>,
    pub contact_number: Option<String>,
    /// Max length: 25
    pub customer_reference: Option<String>,
}

#[derive(Clone, Copy, Debug, PartialEq, Eq, Structural)]
pub enum SubmissionLanguage {
    English,
    Welsh
}

#[derive(Clone, Debug)]
pub struct Document {
    pub data: String,
    pub date: Option<crate::time::Date>,
    pub filename: Option<String>,
    pub content_type: ContentType,
    pub category: Category,
}

#[derive(Clone, Copy, Debug, PartialEq, Eq, Structural)]
pub enum ContentType {
    Pcl,
    Xml,
    Pdf
}

#[derive(Clone, Copy, Debug, PartialEq, Eq, Structural)]
pub enum Category {
    MemorandumAndArticles,
    Memorandum,
    Articles,
    Accounts,
    NameAuthentication,
    NameExisting,
    Deed,
    DeedSupplemental,
    CIC36
}

#[derive(Clone, Debug)]
pub enum Form {
    ConfirmationStatement(super::confirmation_statement::ConfirmationStatement),
    ChangeAccountingReferenceDate(super::accounting_reference_date::ChangeAccountingReferenceDate),
    ChangeOfName(super::change_of_name::ChangeOfName),
    ChangeRegisteredOffice(super::change_registered_office::ChangeRegisteredOfficeAddress),
    MembersRegisterElectOrWithdraw(super::members_register::MembersRegisterElectOrWithdraw),
    MembersRegisterUpdate(super::members_register_update::MembersRegisterUpdate),
    OfficerAppointment(super::officer_appointment::OfficerAppointment),
    OfficerChangeDetails(super::officer_change::OfficerChangeDetails),
    OfficerResignation(super::officer_resignation::OfficerResignation),
    PSCCessation(super::psc_cessation::PSCCessation),
    PSCChangeDetails(super::psc_change_details::PSCChangeDetails),
    PSCNotification(super::psc_notification::PSCNotification),
    PSCStatementNotification(super::psc_statement_notification::PSCStatementNotification),
    PSCStatementWithdrawal(super::psc_statement_withdrawal::PSCStatementWithdrawal),
    RecordChangeOfLocation(super::change_of_location::RecordChangeOfLocation),
    RegisterElectOrWithdraw(super::register_elect_or_withdraw::RegisterElectOrWithdraw),
    ReturnOfAllotmentShares(super::return_allotment_shares::ReturnOfAllotmentShares),
    SAILAddress(super::sail_address::SAILAddress),
    CompanyIncorporation(Box<super::company_incorporation::CompanyIncorporation>),
    ChargeRegistration(super::charge_registration::ChargeRegistration),
    ChargeUpdate(super::charge_update::ChargeUpdate),
}

#[derive(Clone, Debug)]
pub enum AdditionalInformation {
    CorporationTaxInformation(super::corporation_tax_information::CorporationTaxInformation)
}

} // verus!
