//! Messages of the service: the resignation of an officer.

use vstd::prelude::*;
use crate::time::Date;

verus! {

#[derive(Clone, Debug)]
pub struct Person {
    pub person: Option<super::base_types::PersonName>,
    pub date_of_birth: Option<Date>,
}

#[derive(Clone, Debug)]
pub enum DirectorValue {
    Person(Person),
    Corporate(String),
}

#[derive(Clone, Debug)]
pub struct Director {
    pub director: Option<DirectorValue>,
}

#[derive(Clone, Debug)]
pub enum SecretaryValue {
    Person(super::base_types::PersonName),
    Corporate(String),
}

#[derive(Clone, Debug)]
pub struct Secretary {
    pub secretary: Option<SecretaryValue>,
}

#[derive(Clone, Debug)]
pub enum MemberValue {
    Person(Person),
    Corporate(String),
}

#[derive(Clone, Debug)]
pub struct Member {
    pub member: Option<MemberValue>,
}

#[derive(Clone, Debug)]
pub enum Resignation {
    Director(Director),
    Secretary(Secretary),
    Member(Member),
}

#[derive(Clone, Debug)]
pub struct OfficerResignation {
    pub form_submission: Option<super::form_submission::FormSubmission>,
    pub resignation_date: Option<Date>,
    pub resignation: Option<Resignation>,
}

} // verus!
