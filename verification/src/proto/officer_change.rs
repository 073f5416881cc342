//! On the wire: a change in the details of an officer.

use vstd::prelude::*;

verus! {

#[derive(Clone, Debug)]
pub struct OfficerChangeDetails {
    pub date_of_change: crate::time::Date,
    pub change: ChangeType,
}

#[derive(Clone, Debug)]
pub enum ChangeType {
    Director(DirectorChange),
    Secretary(Box<SecretaryChange>),
    Member(MemberChange)
}

#[derive(Clone, Debug)]
pub enum DirectorChange {
    Person(Box<DirectorPersonChange>),
    Corporate(Box<CorporateChangeType>)
}

#[derive(Clone, Debug)]
pub enum SecretaryChange {
    Person(SecretaryPersonChange),
    Corporate(CorporateChangeType)
}

#[derive(Clone, Debug)]
pub enum MemberChange {
    Person(Box<MemberPersonChange>),
    Corporate(Box<CorporateMemberChangeType>)
}

#[derive(Clone, Debug)]
pub struct DirectorPersonChange {
    pub person: super::base_types::PersonType,
    pub dob: crate::time::Date,
    pub change: Option<DirectorPersonChangeDetails>
}

#[derive(Clone, Debug)]
pub struct DirectorPersonChangeDetails {
    pub person_change: PersonChangeDetails,
    pub residential_address: Option<super::base_types::ResidentialAddressType>,
    pub nationality: Option<String>,
    pub country_of_residence: Option<String>,
    pub occupation: Option<String>,
}

#[derive(Clone, Debug)]
pub struct SecretaryPersonChange {
    pub person: super::base_types::PersonType,
    pub change: Option<PersonChangeDetails>
}

#[derive(Clone, Debug)]
pub struct MemberPersonChange {
    pub person: super::base_types::PersonType,
    pub dob: crate::time::Date,
    pub change: Option<MemberPersonChangeDetails>
}

#[derive(Clone, Debug)]
pub struct MemberPersonChangeDetails {
    pub person_change: PersonChangeDetails,
    pub residential_address: Option<super::base_types::ResidentialAddressType>,
    pub country_of_residence: Option<String>,
    pub designated: Option<MemberDesignated>,
}

#[derive(Clone, Debug)]
pub struct MemberDesignated {
    pub designated: bool,
    pub consent_to_act: bool
}

#[derive(Clone, Debug)]
pub struct PersonChangeDetails {
    pub name: Option<super::base_types::PersonType>,
    pub service_address: Option<ServiceAddressChange>,
}

#[derive(Clone, Debug)]
pub struct ServiceAddressChange {
    pub address: super::base_types::ServiceAddressType,
    pub residential_address_unchanged: bool,
}

#[derive(Clone, Debug)]
pub struct CorporateChangeType {
    pub corporate_name: String,
    pub change: Option<CorporateChangeDetails>
}

#[derive(Clone, Debug)]
pub struct CorporateChangeDetails {
    pub corporate_name: Option<String>,
    pub address: Option<super::base_types::CompanyAddress>,
    pub company_identification: Option<super::base_types::CompanyIdentification>,
}

#[derive(Clone, Debug)]
pub struct CorporateMemberChangeType {
    pub corporate_name: String,
    pub change: Option<CorporateMemberChangeDetails>
}

#[derive(Clone, Debug)]
pub struct CorporateMemberChangeDetails {
    pub change: CorporateChangeDetails,
    pub designated: Option<MemberDesignated>,
}

} // verus!
