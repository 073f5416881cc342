//! On the wire: the resignation of an officer.

use vstd::prelude::*;

verus! {

#[derive(Clone, Debug)]
pub struct OfficerResignation {
    pub resignation_date: crate::time::Date,
    pub resignation: ResignationType,
}

#[derive(Clone, Debug)]
pub enum ResignationType {
    Director(DirectorResignation),
    Secretary(SecretaryResignation),
    Member(MemberResignation)
}

#[derive(Clone, Debug)]
pub enum DirectorResignation {
    CorporateName(String),
    Person(PersonChange)
}

#[derive(Clone, Debug)]
pub enum SecretaryResignation {
    CorporateName(String),
    Person(super::base_types::PersonType)
}

#[derive(Clone, Debug)]
pub enum MemberResignation {
    CorporateName(String),
    Person(PersonChange)
}

#[derive(Clone, Debug)]
pub struct PersonChange {
    pub person: super::base_types::PersonType,
    pub dob: crate::time::Date,
}

} // verus!
