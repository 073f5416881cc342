//! Messages of the service: the appointment of an officer.

use vstd::prelude::*;
use crate::time::Date;

verus! {

#[derive(Clone, Debug)]
pub struct CorporateOfficerAppointment {
    pub person: Option<super::base_types::Person>,
    pub corporate: Option<super::base_types::CorporateOfficer>,
}

#[derive(Clone, Debug)]
pub enum DirectorValue {
    Person(super::base_types::DirectorPerson),
    Corporate(CorporateOfficerAppointment),
}

#[derive(Clone, Debug)]
pub struct Director {
    pub director: Option<DirectorValue>,
}

#[derive(Clone, Debug)]
pub enum SecretaryValue {
    Person(super::base_types::SecretaryPerson),
    Corporate(CorporateOfficerAppointment),
}

#[derive(Clone, Debug)]
pub struct Secretary {
    pub secretary: Option<SecretaryValue>,
}

#[derive(Clone, Debug)]
pub enum MemberValue {
    Person(super::base_types::MemberPerson),
    Corporate(CorporateOfficerAppointment),
}

#[derive(Clone, Debug)]
pub struct Member {
    pub designated: bool,
    pub member: Option<MemberValue>,
}

#[derive(Clone, Debug)]
pub enum Appointment {
    Director(Director),
    Secretary(Secretary),
    Member(Member),
}

#[derive(Clone, Debug)]
pub struct OfficerAppointment {
    pub form_submission: Option<super::form_submission::FormSubmission>,
    pub consent_to_act: bool,
    pub appointment_date: Option<Date>,
    pub appointment: Option<Appointment>,
}

} // verus!
