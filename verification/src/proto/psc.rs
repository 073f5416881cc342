//! On the wire: persons with significant control.

use vstd::prelude::*;

verus! {

#[derive(Clone, Copy, Debug, PartialEq, Eq, Structural)]
pub enum CompanyLevelStatement {
    NoSignificantControl,
    StepsNotCompleted,
}

#[derive(Clone, Copy, Debug, PartialEq, Eq, Structural)]
pub enum PSCLevelStatement {
    ExistsButNotIdentified,
    DetailsNotConfirmed,
    ContactedButNoResponse,
    RestrictionNoticeIssued,
}

#[derive(Clone, Debug)]
pub struct PSCLinkedStatement {
    pub statement: PSCLinkedStatementType,
    pub entity: PSCLinkedStatementEntity
}

#[derive(Clone, Copy, Debug, PartialEq, Eq, Structural)]
pub enum PSCLinkedStatementType {
    FailedToConfirmChangedDetails
}

#[derive(Clone, Debug)]
pub enum PSCLinkedStatementEntity {
    SuperSecureIndividual(bool),
    Corporate(LinkedStatementCorporate),
    LegalPerson(LinkedStatementLegalPerson),
    Individual(PSCIdentification),
}

#[derive(Clone, Debug)]
pub struct LinkedStatementCorporate {
    pub corporate_name: String
}

#[derive(Clone, Debug)]
pub struct LinkedStatementLegalPerson {
    pub legal_person_name: String
}

#[derive(Clone, Debug)]
pub struct PSCIdentification {
    pub name: super::base_types::PersonType,
    pub partial_dob: Option<super::base_types::PartialDOBType>,
}

#[derive(Clone, Debug)]
pub struct PSCIndividual<P> {
    pub person: P,
    pub service_address: super::base_types::ServiceAddressType,
    pub date_of_birth: crate::time::Date,
    pub nationality: String,
    pub country_of_residence: Option<String>,
    pub residential_address: super::base_types::ResidentialAddressType,
}

#[derive(Clone, Debug)]
pub enum PSCNotificationType<P> {
    Corporate(PSCCorporateEntity),
    LegalPerson(PSCLegalPerson),
    Individual(Box<PSCIndividual<P>>),
}

#[derive(Clone, Debug)]
pub enum PSCStatementNotificationType {
    Company(CompanyLevelStatement),
    Psc(PSCLevelStatement),
    PscLinked(PSCLinkedStatement),
}

#[derive(Clone, Debug)]
pub struct PSCCorporateEntity {
    pub corporate_name: String,
    pub address: super::base_types::CompanyAddress,
    pub company_identification: PSCCorporateIdentification,
}

#[derive(Clone, Debug)]
pub struct PSCCorporateIdentification {
    pub place_registered: Option<String>,
    pub registration_number: Option<String>,
    pub law_governed: String,
    pub legal_form: String,
    pub country_or_state: Option<String>,
}

#[derive(Clone, Debug)]
pub struct PSCLegalPerson {
    pub name: String,
    pub address: super::base_types::CompanyAddress,
    pub legal_person_identification: PSCLegalPersonIdentification
}

#[derive(Clone, Debug)]
pub struct PSCLegalPersonIdentification {
    pub law_governed: String,
    pub legal_form: String,
}

#[derive(Clone, Debug)]
pub enum PSCNatureOfControls {
    NatureOfControls(NatureOfControls),
    LLPNatureOfControls(LLPNatureOfControls),
}

#[derive(Clone, Debug)]
pub struct NatureOfControls {
    pub nature_of_control: Vec<NatureOfControlType>
}

#[derive(Clone, Debug)]
pub struct LLPNatureOfControls {
    pub nature_of_control: Vec<LLPNatureOfControlType>
}

#[derive(Clone, Copy, Debug, PartialEq, Eq, Structural)]
pub enum NatureOfControlType {
    OwnershipOfShares25To50,
    OwnershipOfShares50To75,
    OwnershipOfShares75To100,
    OwnershipOfShares25To50AsTrust,
    OwnershipOfShares50To75AsTrust,
    OwnershipOfShares75To100AsTrust,
    OwnershipOfShares25To50AsFirm,
    OwnershipOfShares50To75AsFirm,
    OwnershipOfShares75To100AsFirm,
    VotingRights25To50,
    VotingRights50To75,
    VotingRights75To100,
    VotingRights25To50AsTrust,
    VotingRights50To75AsTrust,
    VotingRights75To100AsTrust,
    VotingRights25To50AsFirm,
    VotingRights50To75AsFirm,
    VotingRights75To100AsFirm,
    RightToAppointAndRemoveDirectors,
    RightToAppointAndRemoveDirectorsAsTrust,
    RightToAppointAndRemoveDirectorsAsFirm,
    SignificantInfluence,
    SignificantInfluenceAsTrust,
    SignificantInfluenceAsFirm,
}

#[derive(Clone, Copy, Debug, PartialEq, Eq, Structural)]
pub enum LLPNatureOfControlType {
    RightToSurplusAssets25To50,
    RightToSurplusAssets50To75,
    RightToSurplusAssets75To100,
    RightToSurplusAssets25To50AsTrust,
    RightToSurplusAssets50To75AsTrust,
    RightToSurplusAssets75To100AsTrust,
    RightToSurplusAssets25To50AsFirm,
    RightToSurplusAssets50To75AsFirm,
    RightToSurplusAssets75To100AsFirm,
    VotingRights25To50,
    VotingRights50To75,
    VotingRights75To100,
    VotingRights25To50AsTrust,
    VotingRights50To75AsTrust,
    VotingRights75To100AsTrust,
    VotingRights25To50AsFirm,
    VotingRights50To75AsFirm,
    VotingRights75To100AsFirm,
    RightToAppointAndRemoveMembers,
    RightToAppointAndRemoveMembersAsTrust,
    RightToAppointAndRemoveMembersAsFirm,
    SignificantInfluence,
    SignificantInfluenceAsTrust,
    SignificantInfluenceAsFirm,
}

} // verus!
