//! Messages of the service: a change in the details of an officer.

use vstd::prelude::*;
use crate::time::Date;

verus! {

#[derive(Clone, Debug)]
pub struct ServiceAddress {
    pub address: Option<super::base_types::ServiceAddress>,
    pub residential_address_unchanged: bool,
}

#[derive(Clone, Debug)]
pub struct CorporateChange {
    pub corporate_name: String,
    pub new_corporate_name: Option<String>,
    pub new_address: Option<super::base_types::CompanyAddress>,
    pub new_company_identification: Option<super::base_types::CompanyIdentification>,
}

#[derive(Clone, Debug)]
pub struct DirectorPersonChange {
    pub person: Option<super::base_types::PersonName>,
    pub date_of_birth: Option<Date>,
    pub new_name: Option<super::base_types::PersonName>,
    pub new_service_address: Option<ServiceAddress>,
    pub new_residential_address: Option<super::base_types::ResidentialAddress>,
    pub new_nationality: Option<String>,
    pub new_country_of_residence: Option<String>,
    pub new_occupation: Option<String>,
}

#[derive(Clone, Debug)]
pub enum DirectorValue {
    Person(DirectorPersonChange),
    Corporate(CorporateChange),
}

#[derive(Clone, Debug)]
pub struct Director {
    pub director: Option<DirectorValue>,
}

#[derive(Clone, Debug)]
pub struct SecretaryPersonChange {
    pub person: Option<super::base_types::PersonName>,
    pub new_name: Option<super::base_types::PersonName>,
    pub new_service_address: Option<super::base_types::ServiceAddress>,
}

#[derive(Clone, Debug)]
pub enum SecretaryValue {
    Person(SecretaryPersonChange),
    Corporate(CorporateChange),
}

#[derive(Clone, Debug)]
pub struct Secretary {
    pub secretary: Option<SecretaryValue>,
}

#[derive(Clone, Debug)]
pub struct Designated {
    pub designated: bool,
    pub consent_to_act: bool,
}

#[derive(Clone, Debug)]
pub struct MemberPersonChange {
    pub person: Option<super::base_types::PersonName>,
    pub date_of_birth: Option<Date>,
    pub new_name: Option<super::base_types::PersonName>,
    pub new_service_address: Option<ServiceAddress>,
    pub new_residential_address: Option<super::base_types::ResidentialAddress>,
    pub new_country_of_residence: Option<String>,
    pub designated: Option<Designated>,
}

#[derive(Clone, Debug)]
pub struct CorporateMemberChange {
    pub corporate_change: Option<CorporateChange>,
    pub designated: Option<Designated>,
}

#[derive(Clone, Debug)]
pub enum MemberValue {
    Person(MemberPersonChange),
    Corporate(CorporateMemberChange),
}

#[derive(Clone, Debug)]
pub struct Member {
    pub member: Option<MemberValue>,
}

#[derive(Clone, Debug)]
pub enum Change {
    Director(Director),
    Secretary(Secretary),
    Member(Member),
}

#[derive(Clone, Debug)]
pub struct OfficerChange {
    pub form_submission: Option<super::form_submission::FormSubmission>,
    pub date_of_change: Option<Date>,
    pub change: Option<Change>,
}

} // verus!
