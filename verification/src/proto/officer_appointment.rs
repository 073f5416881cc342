//! On the wire: the appointment of an officer.

use vstd::prelude::*;

verus! {

#[derive(Clone, Debug)]
pub struct OfficerAppointment {
    pub appointment_date: crate::time::Date,
    pub consent_to_act: bool,
    pub appointment: AppointmentType
}

#[derive(Clone, Debug)]
pub enum AppointmentType {
    Director(super::base_types::DirectorAppointmentType),
    Secretary(super::base_types::SecretaryAppointmentType),
    Member(Box<super::base_types::MemberAppointmentType>)
}

} // verus!
