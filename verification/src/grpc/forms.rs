//! The forms about a company's officers, addresses, name and dates: how
//! each is checked and put together.

use vstd::prelude::*;
use vstd::string::*;
use crate::ch_ewf_grpc;
use crate::error::ServiceError;
use crate::grpc::submission::FormRequest;
use crate::grpc::company_data::spec_record_type_message;
use crate::grpc::CHFillingService;
use crate::outside::{to_uppercase, uppercase};
use crate::proto;
use crate::rules::{
    all_numeric, spec_all_numeric, all_named, first_rejection, invalid_argument, lemma_first_rejection,
    named, rejected, required_text, text_ok, unless, Checks,
};
use crate::text::{byte_len, len};

verus! {

impl proto::change_registered_office::ChangeRegisteredOfficeAddress {
    /// Why the form `msg` is refused, if it is: for the first check, in order, that it fails.
    pub open spec fn rejection(
        msg: ch_ewf_grpc::change_registered_office::ChangeRegisteredOffice,
    ) -> Option<Seq<char>> {
        match msg.address {
            Some(address) => proto::base_types::UKAddress::rejection(address),
            None => Some("Need new address"@),
        }
    }

    /// Whether `self` is the form `msg` as it goes on the wire.
    pub open spec fn is_accepted(self, msg: ch_ewf_grpc::change_registered_office::ChangeRegisteredOffice) -> bool {
        &&& msg.address matches Some(address)
        &&& self.address.is_accepted(address)
    }

    pub fn try_from(
        msg: ch_ewf_grpc::change_registered_office::ChangeRegisteredOffice,
    ) -> (r: Result<Self, ServiceError>)
        ensures
            match Self::rejection(msg) {
                Some(message) => rejected(r, message),
                None => r matches Ok(v) && v.is_accepted(msg),
            },
    {
        let address = match msg.address {
            Some(address) => proto::base_types::UKAddress::try_from(address)?,
            None => {
                return invalid_argument("Need new address");
            },
        };
        Ok(
            proto::change_registered_office::ChangeRegisteredOfficeAddress {
                address,
            },
        )
    }
}

impl CHFillingService {
    /// Checks a change of registered office and puts the form together.
    pub fn change_registered_office(
        msg: ch_ewf_grpc::change_registered_office::ChangeRegisteredOffice,
    ) -> (r: Result<FormRequest, ServiceError>)
        ensures
            match proto::change_registered_office::ChangeRegisteredOfficeAddress::rejection(msg) {
                Some(message) => rejected(r, message),
                None => {
                    &&& r matches Ok(request)
                    &&& request.is_for(msg.form_submission, "ChangeRegisteredOfficeAddress"@, "ChangeRegisteredOfficeAddress"@)
                    &&& request.form matches proto::form_submission::Form::ChangeRegisteredOffice(form)
                    &&& form.is_accepted(msg)
                },
            },
    {
        let mut msg = msg;
        let form_submission = msg.form_submission.take();
        let form = proto::change_registered_office::ChangeRegisteredOfficeAddress::try_from(msg)?;
        Ok(
            FormRequest {
                form_submission,
                submission_class: "ChangeRegisteredOfficeAddress".to_owned(),
                form_type: "ChangeRegisteredOfficeAddress".to_owned(),
                form: proto::form_submission::Form::ChangeRegisteredOffice(form),
                documents: Vec::new(),
            },
        )
    }
}

impl proto::sail_address::SAILAddress {
    /// Why the form `msg` is refused, if it is: for the first check, in order, that it fails.
    pub open spec fn rejection(msg: ch_ewf_grpc::sail_address::SailAddress) -> Option<Seq<char>> {
        match msg.address {
            Some(address) => proto::base_types::UKAddress::rejection(address),
            None => Some("Need new address"@),
        }
    }

    /// Whether `self` is the form `msg` as it goes on the wire.
    pub open spec fn is_accepted(self, msg: ch_ewf_grpc::sail_address::SailAddress) -> bool {
        &&& msg.address matches Some(address)
        &&& self.address.is_accepted(address)
    }

    pub fn try_from(msg: ch_ewf_grpc::sail_address::SailAddress) -> (r: Result<Self, ServiceError>)
        ensures
            match Self::rejection(msg) {
                Some(message) => rejected(r, message),
                None => r matches Ok(v) && v.is_accepted(msg),
            },
    {
        let address = match msg.address {
            Some(address) => proto::base_types::UKAddress::try_from(address)?,
            None => {
                return invalid_argument("Need new address");
            },
        };
        Ok(
            proto::sail_address::SAILAddress {
                address,
            },
        )
    }
}

impl CHFillingService {
    /// Checks a notice of the inspection address and puts the form together.
    pub fn sail_address(msg: ch_ewf_grpc::sail_address::SailAddress) -> (r: Result<FormRequest, ServiceError>)
        ensures
            match proto::sail_address::SAILAddress::rejection(msg) {
                Some(message) => rejected(r, message),
                None => {
                    &&& r matches Ok(request)
                    &&& request.is_for(msg.form_submission, "SailAddress"@, "SailAddress"@)
                    &&& request.form matches proto::form_submission::Form::SAILAddress(form)
                    &&& form.is_accepted(msg)
                },
            },
    {
        let mut msg = msg;
        let form_submission = msg.form_submission.take();
        let form = proto::sail_address::SAILAddress::try_from(msg)?;
        Ok(
            FormRequest {
                form_submission,
                submission_class: "SailAddress".to_owned(),
                form_type: "SailAddress".to_owned(),
                form: proto::form_submission::Form::SAILAddress(form),
                documents: Vec::new(),
            },
        )
    }
}

/// The kind of record that the service names for what the wire names `record`.
pub open spec fn spec_record_name(record: proto::base_types::RecordType) -> ch_ewf_grpc::base_types::RecordType {
    spec_record_type_message(record)
}

/// Whether `list` names the registers that `records` name, in order.
pub open spec fn are_registers(
    list: Seq<proto::change_of_location::Register>,
    records: Seq<Option<ch_ewf_grpc::base_types::RecordType>>,
) -> bool {
    list.len() == records.len() && forall|i: int|
        0 <= i < list.len() ==> records[i] == Some(spec_record_name((#[trigger] list[i]).register_type))
}

/// Why a list of records is refused, if it is: it names none or more than
/// sixteen, or one of them is not named.
pub open spec fn records_rejection(records: Seq<Option<ch_ewf_grpc::base_types::RecordType>>) -> Option<Seq<char>> {
    unless(1 <= records.len() <= 16, "Invalid list of records"@).otherwise(
        unless(all_named(records), "Invalid record type"@),
    )
}

/// The registers that a list of records names.
pub fn registers(records: Vec<Option<ch_ewf_grpc::base_types::RecordType>>) -> (r: Result<
    Vec<proto::change_of_location::Register>,
    ServiceError,
>)
    ensures
        match records_rejection(records@) {
            Some(message) => rejected(r, message),
            None => r matches Ok(list) && are_registers(list@, records@),
        },
{
    if records.len() == 0 || records.len() > 16 {
        return invalid_argument("Invalid list of records");
    }
    let mut list: Vec<proto::change_of_location::Register> = Vec::new();
    let ghost all = records@;
    for record in it: records
        invariant
            it.seq() == all,
            1 <= all.len() <= 16,
            list@.len() == it.index(),
            forall|j: int| 0 <= j < it.index() ==> (#[trigger] all[j]) is Some,
            forall|j: int|
                0 <= j < it.index() ==> all[j] == Some(spec_record_name((#[trigger] list@[j]).register_type)),
    {
        match CHFillingService::map_record_type(record) {
            Some(register_type) => {
                list.push(proto::change_of_location::Register { register_type });
            },
            None => {
                return invalid_argument("Invalid record type");
            },
        }
    }
    Ok(list)
}

impl proto::change_of_location::RecordChangeOfLocation {
    /// Why the form `msg` is refused, if it is.
    pub open spec fn rejection(msg: ch_ewf_grpc::change_of_location::ChangeOfLocation) -> Option<Seq<char>> {
        match msg.location_move {
            Some(ch_ewf_grpc::change_of_location::Move::MoveToSail(m)) => records_rejection(m.records@),
            Some(ch_ewf_grpc::change_of_location::Move::MoveToRegisteredOffice(m)) => match m.records_move {
                Some(ch_ewf_grpc::change_of_location::RegisteredOfficeMove::All(b)) => unless(
                    b,
                    "Move all to registered office must be true"@,
                ),
                Some(ch_ewf_grpc::change_of_location::RegisteredOfficeMove::Listed(r)) => records_rejection(r.records@),
                None => Some("One of move all or move some must be provided"@),
            },
            None => Some("One of move to SAIL or move to RO must be provided"@),
        }
    }

    /// Whether `self` is the form `msg` as it goes on the wire.
    pub open spec fn is_accepted(self, msg: ch_ewf_grpc::change_of_location::ChangeOfLocation) -> bool {
        match msg.location_move {
            Some(ch_ewf_grpc::change_of_location::Move::MoveToSail(m)) => {
                &&& self matches proto::change_of_location::RecordChangeOfLocation::MoveToSAILAddress(v)
                &&& v.move_to_sail_address
                &&& are_registers(v.register_list@, m.records@)
            },
            Some(ch_ewf_grpc::change_of_location::Move::MoveToRegisteredOffice(m)) => {
                &&& self matches proto::change_of_location::RecordChangeOfLocation::MoveToRegisteredOffice(v)
                &&& v.move_to_registered_office
                &&& match m.records_move {
                    Some(ch_ewf_grpc::change_of_location::RegisteredOfficeMove::All(_)) => v.move_type
                        == proto::change_of_location::MoveToRegisteredOfficeType::All(true),
                    Some(ch_ewf_grpc::change_of_location::RegisteredOfficeMove::Listed(r)) => v.move_type matches proto::change_of_location::MoveToRegisteredOfficeType::Listed(
                        list,
                    ) && are_registers(list@, r.records@),
                    None => false,
                }
            },
            None => false,
        }
    }

    pub fn try_from(msg: ch_ewf_grpc::change_of_location::ChangeOfLocation) -> (r: Result<Self, ServiceError>)
        ensures
            match Self::rejection(msg) {
                Some(message) => rejected(r, message),
                None => r matches Ok(v) && v.is_accepted(msg),
            },
    {
        match msg.location_move {
            Some(ch_ewf_grpc::change_of_location::Move::MoveToSail(m)) => Ok(
                proto::change_of_location::RecordChangeOfLocation::MoveToSAILAddress(
                    proto::change_of_location::MoveToSAILAddress {
                        move_to_sail_address: true,
                        register_list: registers(m.records)?,
                    },
                ),
            ),
            Some(ch_ewf_grpc::change_of_location::Move::MoveToRegisteredOffice(m)) => match m.records_move {
                Some(ch_ewf_grpc::change_of_location::RegisteredOfficeMove::All(b)) => {
                    if !b {
                        return invalid_argument("Move all to registered office must be true");
                    }
                    Ok(
                        proto::change_of_location::RecordChangeOfLocation::MoveToRegisteredOffice(
                            proto::change_of_location::MoveToRegisteredOffice {
                                move_to_registered_office: true,
                                move_type: proto::change_of_location::MoveToRegisteredOfficeType::All(true),
                            },
                        ),
                    )
                },
                Some(ch_ewf_grpc::change_of_location::RegisteredOfficeMove::Listed(r)) => Ok(
                    proto::change_of_location::RecordChangeOfLocation::MoveToRegisteredOffice(
                        proto::change_of_location::MoveToRegisteredOffice {
                            move_to_registered_office: true,
                            move_type: proto::change_of_location::MoveToRegisteredOfficeType::Listed(
                                registers(r.records)?,
                            ),
                        },
                    ),
                ),
                None => invalid_argument("One of move all or move some must be provided"),
            },
            None => invalid_argument("One of move to SAIL or move to RO must be provided"),
        }
    }
}

impl CHFillingService {
    /// Checks a change of where records are kept and puts the form together.
    pub fn change_of_location(
        msg: ch_ewf_grpc::change_of_location::ChangeOfLocation,
    ) -> (r: Result<FormRequest, ServiceError>)
        ensures
            match proto::change_of_location::RecordChangeOfLocation::rejection(msg) {
                Some(message) => rejected(r, message),
                None => {
                    &&& r matches Ok(request)
                    &&& request.is_for(msg.form_submission, "RecordChangeOfLocation"@, "RecordChangeOfLocation"@)
                    &&& request.form matches proto::form_submission::Form::RecordChangeOfLocation(form)
                    &&& form.is_accepted(msg)
                },
            },
    {
        let mut msg = msg;
        let form_submission = msg.form_submission.take();
        let form = proto::change_of_location::RecordChangeOfLocation::try_from(msg)?;
        Ok(
            FormRequest {
                form_submission,
                submission_class: "RecordChangeOfLocation".to_owned(),
                form_type: "RecordChangeOfLocation".to_owned(),
                form: proto::form_submission::Form::RecordChangeOfLocation(form),
                documents: Vec::new(),
            },
        )
    }
}

impl proto::officer_appointment::AppointmentType {
    /// Why the appointment `appointment` is refused, if it is: it holds none of its kinds, or the
    /// one it holds is refused.
    pub open spec fn rejection(
        appointment: Option<ch_ewf_grpc::officer_appointment::Appointment>,
    ) -> Option<Seq<char>> {
        match appointment {
            Some(ch_ewf_grpc::officer_appointment::Appointment::Director(o)) => {
                proto::base_types::DirectorAppointmentType::rejection(o)
            },
            Some(ch_ewf_grpc::officer_appointment::Appointment::Secretary(o)) => {
                proto::base_types::SecretaryAppointmentType::rejection(o)
            },
            Some(ch_ewf_grpc::officer_appointment::Appointment::Member(o)) => {
                proto::base_types::MemberAppointmentType::rejection(o)
            },
            None => Some("Entity to appoint must be provided"@),
        }
    }

    /// Whether `self` is the appointment `appointment` as it goes on the wire.
    pub open spec fn is_accepted(self, appointment: Option<ch_ewf_grpc::officer_appointment::Appointment>) -> bool {
        match appointment {
            Some(ch_ewf_grpc::officer_appointment::Appointment::Director(o)) => {
                self matches proto::officer_appointment::AppointmentType::Director(got) && got.is_accepted(o)
            },
            Some(ch_ewf_grpc::officer_appointment::Appointment::Secretary(o)) => {
                self matches proto::officer_appointment::AppointmentType::Secretary(got) && got.is_accepted(o)
            },
            Some(ch_ewf_grpc::officer_appointment::Appointment::Member(o)) => {
                self matches proto::officer_appointment::AppointmentType::Member(got) && (*got).is_accepted(o)
            },
            None => false,
        }
    }

    pub fn try_from(
        appointment: Option<ch_ewf_grpc::officer_appointment::Appointment>,
    ) -> (r: Result<Self, ServiceError>)
        ensures
            match Self::rejection(appointment) {
                Some(message) => rejected(r, message),
                None => r matches Ok(v) && v.is_accepted(appointment),
            },
    {
        match appointment {
            Some(ch_ewf_grpc::officer_appointment::Appointment::Director(o)) => {
                Ok(
                    proto::officer_appointment::AppointmentType::Director(
                        proto::base_types::DirectorAppointmentType::try_from(o)?,
                    ),
                )
            },
            Some(ch_ewf_grpc::officer_appointment::Appointment::Secretary(o)) => {
                Ok(
                    proto::officer_appointment::AppointmentType::Secretary(
                        proto::base_types::SecretaryAppointmentType::try_from(o)?,
                    ),
                )
            },
            Some(ch_ewf_grpc::officer_appointment::Appointment::Member(o)) => {
                Ok(
                    proto::officer_appointment::AppointmentType::Member(
                        Box::new(proto::base_types::MemberAppointmentType::try_from(o)?),
                    ),
                )
            },
            None => invalid_argument("Entity to appoint must be provided"),
        }
    }
}

impl proto::officer_appointment::OfficerAppointment {
    /// Why the form `msg` is refused, if it is: for the first check, in order, that it fails.
    pub open spec fn rejection(msg: ch_ewf_grpc::officer_appointment::OfficerAppointment) -> Option<Seq<char>> {
        unless(msg.consent_to_act, "Consent to act must be given"@)
            .otherwise(unless(msg.appointment_date is Some, "Appointment date required"@))
            .otherwise(proto::officer_appointment::AppointmentType::rejection(msg.appointment))
    }

    /// Whether `self` is the form `msg` as it goes on the wire.
    pub open spec fn is_accepted(self, msg: ch_ewf_grpc::officer_appointment::OfficerAppointment) -> bool {
        &&& self.consent_to_act
        &&& msg.appointment_date == Some(self.appointment_date)
        &&& self.appointment.is_accepted(msg.appointment)
    }

    pub fn try_from(msg: ch_ewf_grpc::officer_appointment::OfficerAppointment) -> (r: Result<Self, ServiceError>)
        ensures
            match Self::rejection(msg) {
                Some(message) => rejected(r, message),
                None => r matches Ok(v) && v.is_accepted(msg),
            },
    {
        if !msg.consent_to_act {
            return invalid_argument("Consent to act must be given");
        }
        let appointment_date = match msg.appointment_date {
            Some(d) => d,
            None => {
                return invalid_argument("Appointment date required");
            },
        };
        let appointment = proto::officer_appointment::AppointmentType::try_from(msg.appointment)?;
        Ok(
            proto::officer_appointment::OfficerAppointment {
                consent_to_act: true,
                appointment_date,
                appointment,
            },
        )
    }
}

impl CHFillingService {
    /// Checks the appointment of an officer and puts the form together.
    pub fn officer_appointment(
        msg: ch_ewf_grpc::officer_appointment::OfficerAppointment,
    ) -> (r: Result<FormRequest, ServiceError>)
        ensures
            match proto::officer_appointment::OfficerAppointment::rejection(msg) {
                Some(message) => rejected(r, message),
                None => {
                    &&& r matches Ok(request)
                    &&& request.is_for(msg.form_submission, "OfficerAppointment"@, "OfficerAppointment"@)
                    &&& request.form matches proto::form_submission::Form::OfficerAppointment(form)
                    &&& form.is_accepted(msg)
                },
            },
    {
        let mut msg = msg;
        let form_submission = msg.form_submission.take();
        let form = proto::officer_appointment::OfficerAppointment::try_from(msg)?;
        Ok(
            FormRequest {
                form_submission,
                submission_class: "OfficerAppointment".to_owned(),
                form_type: "OfficerAppointment".to_owned(),
                form: proto::form_submission::Form::OfficerAppointment(form),
                documents: Vec::new(),
            },
        )
    }
}

impl proto::officer_resignation::DirectorResignation {
    /// Why the director `o` is refused, if it is: it holds none of its kinds, or the one it holds is refused.
    pub open spec fn rejection(o: ch_ewf_grpc::officer_resignation::Director) -> Option<Seq<char>> {
        match o.director {
            Some(ch_ewf_grpc::officer_resignation::DirectorValue::Person(p)) => {
                proto::officer_resignation::PersonChange::rejection(p)
            },
            Some(ch_ewf_grpc::officer_resignation::DirectorValue::Corporate(c)) => {
                unless(text_ok(c@, 160), "Invalid corporate name"@)
            },
            None => Some("Director type required"@),
        }
    }

    /// Whether `self` is the director `o` as it goes on the wire.
    pub open spec fn is_accepted(self, o: ch_ewf_grpc::officer_resignation::Director) -> bool {
        match o.director {
            Some(ch_ewf_grpc::officer_resignation::DirectorValue::Person(p)) => {
                self matches proto::officer_resignation::DirectorResignation::Person(got) && got.is_accepted(p)
            },
            Some(ch_ewf_grpc::officer_resignation::DirectorValue::Corporate(c)) => {
                self == proto::officer_resignation::DirectorResignation::CorporateName(c)
            },
            None => false,
        }
    }

    pub fn try_from(o: ch_ewf_grpc::officer_resignation::Director) -> (r: Result<Self, ServiceError>)
        ensures
            match Self::rejection(o) {
                Some(message) => rejected(r, message),
                None => r matches Ok(v) && v.is_accepted(o),
            },
    {
        match o.director {
            Some(ch_ewf_grpc::officer_resignation::DirectorValue::Person(p)) => {
                Ok(
                    proto::officer_resignation::DirectorResignation::Person(
                        proto::officer_resignation::PersonChange::try_from(p)?,
                    ),
                )
            },
            Some(ch_ewf_grpc::officer_resignation::DirectorValue::Corporate(c)) => {
                if !required_text(c.as_str(), 160) {
                    return invalid_argument("Invalid corporate name");
                }
                Ok(proto::officer_resignation::DirectorResignation::CorporateName(c))
            },
            None => invalid_argument("Director type required"),
        }
    }
}

impl proto::officer_resignation::SecretaryResignation {
    /// Why the secretary `o` is refused, if it is: it holds none of its kinds, or the one it holds is refused.
    pub open spec fn rejection(o: ch_ewf_grpc::officer_resignation::Secretary) -> Option<Seq<char>> {
        match o.secretary {
            Some(ch_ewf_grpc::officer_resignation::SecretaryValue::Person(p)) => {
                proto::base_types::PersonType::rejection(p)
            },
            Some(ch_ewf_grpc::officer_resignation::SecretaryValue::Corporate(c)) => {
                unless(text_ok(c@, 160), "Invalid corporate name"@)
            },
            None => Some("Secretary type required"@),
        }
    }

    /// Whether `self` is the secretary `o` as it goes on the wire.
    pub open spec fn is_accepted(self, o: ch_ewf_grpc::officer_resignation::Secretary) -> bool {
        match o.secretary {
            Some(ch_ewf_grpc::officer_resignation::SecretaryValue::Person(p)) => {
                self matches proto::officer_resignation::SecretaryResignation::Person(got) && got.is_accepted(p)
            },
            Some(ch_ewf_grpc::officer_resignation::SecretaryValue::Corporate(c)) => {
                self == proto::officer_resignation::SecretaryResignation::CorporateName(c)
            },
            None => false,
        }
    }

    pub fn try_from(o: ch_ewf_grpc::officer_resignation::Secretary) -> (r: Result<Self, ServiceError>)
        ensures
            match Self::rejection(o) {
                Some(message) => rejected(r, message),
                None => r matches Ok(v) && v.is_accepted(o),
            },
    {
        match o.secretary {
            Some(ch_ewf_grpc::officer_resignation::SecretaryValue::Person(p)) => {
                Ok(
                    proto::officer_resignation::SecretaryResignation::Person(
                        proto::base_types::PersonType::try_from(p)?,
                    ),
                )
            },
            Some(ch_ewf_grpc::officer_resignation::SecretaryValue::Corporate(c)) => {
                if !required_text(c.as_str(), 160) {
                    return invalid_argument("Invalid corporate name");
                }
                Ok(proto::officer_resignation::SecretaryResignation::CorporateName(c))
            },
            None => invalid_argument("Secretary type required"),
        }
    }
}

impl proto::officer_resignation::MemberResignation {
    /// Why the member `o` is refused, if it is: it holds none of its kinds, or the one it holds is refused.
    pub open spec fn rejection(o: ch_ewf_grpc::officer_resignation::Member) -> Option<Seq<char>> {
        match o.member {
            Some(ch_ewf_grpc::officer_resignation::MemberValue::Person(p)) => {
                proto::officer_resignation::PersonChange::rejection(p)
            },
            Some(ch_ewf_grpc::officer_resignation::MemberValue::Corporate(c)) => {
                unless(text_ok(c@, 160), "Invalid corporate name"@)
            },
            None => Some("Member type required"@),
        }
    }

    /// Whether `self` is the member `o` as it goes on the wire.
    pub open spec fn is_accepted(self, o: ch_ewf_grpc::officer_resignation::Member) -> bool {
        match o.member {
            Some(ch_ewf_grpc::officer_resignation::MemberValue::Person(p)) => {
                self matches proto::officer_resignation::MemberResignation::Person(got) && got.is_accepted(p)
            },
            Some(ch_ewf_grpc::officer_resignation::MemberValue::Corporate(c)) => {
                self == proto::officer_resignation::MemberResignation::CorporateName(c)
            },
            None => false,
        }
    }

    pub fn try_from(o: ch_ewf_grpc::officer_resignation::Member) -> (r: Result<Self, ServiceError>)
        ensures
            match Self::rejection(o) {
                Some(message) => rejected(r, message),
                None => r matches Ok(v) && v.is_accepted(o),
            },
    {
        match o.member {
            Some(ch_ewf_grpc::officer_resignation::MemberValue::Person(p)) => {
                Ok(
                    proto::officer_resignation::MemberResignation::Person(
                        proto::officer_resignation::PersonChange::try_from(p)?,
                    ),
                )
            },
            Some(ch_ewf_grpc::officer_resignation::MemberValue::Corporate(c)) => {
                if !required_text(c.as_str(), 160) {
                    return invalid_argument("Invalid corporate name");
                }
                Ok(proto::officer_resignation::MemberResignation::CorporateName(c))
            },
            None => invalid_argument("Member type required"),
        }
    }
}

impl proto::officer_resignation::ResignationType {
    /// Why the resignation `resignation` is refused, if it is: it holds none of its kinds, or the
    /// one it holds is refused.
    pub open spec fn rejection(
        resignation: Option<ch_ewf_grpc::officer_resignation::Resignation>,
    ) -> Option<Seq<char>> {
        match resignation {
            Some(ch_ewf_grpc::officer_resignation::Resignation::Director(o)) => {
                proto::officer_resignation::DirectorResignation::rejection(o)
            },
            Some(ch_ewf_grpc::officer_resignation::Resignation::Secretary(o)) => {
                proto::officer_resignation::SecretaryResignation::rejection(o)
            },
            Some(ch_ewf_grpc::officer_resignation::Resignation::Member(o)) => {
                proto::officer_resignation::MemberResignation::rejection(o)
            },
            None => Some("Entity resigning must be provided"@),
        }
    }

    /// Whether `self` is the resignation `resignation` as it goes on the wire.
    pub open spec fn is_accepted(self, resignation: Option<ch_ewf_grpc::officer_resignation::Resignation>) -> bool {
        match resignation {
            Some(ch_ewf_grpc::officer_resignation::Resignation::Director(o)) => {
                self matches proto::officer_resignation::ResignationType::Director(got) && got.is_accepted(o)
            },
            Some(ch_ewf_grpc::officer_resignation::Resignation::Secretary(o)) => {
                self matches proto::officer_resignation::ResignationType::Secretary(got) && got.is_accepted(o)
            },
            Some(ch_ewf_grpc::officer_resignation::Resignation::Member(o)) => {
                self matches proto::officer_resignation::ResignationType::Member(got) && got.is_accepted(o)
            },
            None => false,
        }
    }

    pub fn try_from(
        resignation: Option<ch_ewf_grpc::officer_resignation::Resignation>,
    ) -> (r: Result<Self, ServiceError>)
        ensures
            match Self::rejection(resignation) {
                Some(message) => rejected(r, message),
                None => r matches Ok(v) && v.is_accepted(resignation),
            },
    {
        match resignation {
            Some(ch_ewf_grpc::officer_resignation::Resignation::Director(o)) => {
                Ok(
                    proto::officer_resignation::ResignationType::Director(
                        proto::officer_resignation::DirectorResignation::try_from(o)?,
                    ),
                )
            },
            Some(ch_ewf_grpc::officer_resignation::Resignation::Secretary(o)) => {
                Ok(
                    proto::officer_resignation::ResignationType::Secretary(
                        proto::officer_resignation::SecretaryResignation::try_from(o)?,
                    ),
                )
            },
            Some(ch_ewf_grpc::officer_resignation::Resignation::Member(o)) => {
                Ok(
                    proto::officer_resignation::ResignationType::Member(
                        proto::officer_resignation::MemberResignation::try_from(o)?,
                    ),
                )
            },
            None => invalid_argument("Entity resigning must be provided"),
        }
    }
}

impl proto::officer_resignation::OfficerResignation {
    /// Why the form `msg` is refused, if it is: for the first check, in order, that it fails.
    pub open spec fn rejection(msg: ch_ewf_grpc::officer_resignation::OfficerResignation) -> Option<Seq<char>> {
        unless(msg.resignation_date is Some, "Resignation date required"@)
            .otherwise(proto::officer_resignation::ResignationType::rejection(msg.resignation))
    }

    /// Whether `self` is the form `msg` as it goes on the wire.
    pub open spec fn is_accepted(self, msg: ch_ewf_grpc::officer_resignation::OfficerResignation) -> bool {
        &&& msg.resignation_date == Some(self.resignation_date)
        &&& self.resignation.is_accepted(msg.resignation)
    }

    pub fn try_from(msg: ch_ewf_grpc::officer_resignation::OfficerResignation) -> (r: Result<Self, ServiceError>)
        ensures
            match Self::rejection(msg) {
                Some(message) => rejected(r, message),
                None => r matches Ok(v) && v.is_accepted(msg),
            },
    {
        let resignation_date = match msg.resignation_date {
            Some(d) => d,
            None => {
                return invalid_argument("Resignation date required");
            },
        };
        let resignation = proto::officer_resignation::ResignationType::try_from(msg.resignation)?;
        Ok(
            proto::officer_resignation::OfficerResignation {
                resignation_date,
                resignation,
            },
        )
    }
}

impl CHFillingService {
    /// Checks the resignation of an officer and puts the form together.
    pub fn officer_resignation(
        msg: ch_ewf_grpc::officer_resignation::OfficerResignation,
    ) -> (r: Result<FormRequest, ServiceError>)
        ensures
            match proto::officer_resignation::OfficerResignation::rejection(msg) {
                Some(message) => rejected(r, message),
                None => {
                    &&& r matches Ok(request)
                    &&& request.is_for(msg.form_submission, "OfficerResignation"@, "OfficerResignation"@)
                    &&& request.form matches proto::form_submission::Form::OfficerResignation(form)
                    &&& form.is_accepted(msg)
                },
            },
    {
        let mut msg = msg;
        let form_submission = msg.form_submission.take();
        let form = proto::officer_resignation::OfficerResignation::try_from(msg)?;
        Ok(
            FormRequest {
                form_submission,
                submission_class: "OfficerResignation".to_owned(),
                form_type: "OfficerResignation".to_owned(),
                form: proto::form_submission::Form::OfficerResignation(form),
                documents: Vec::new(),
            },
        )
    }
}

impl proto::accounting_reference_date::FiveYearExtensionDetails {
    /// Why the extension `e` is refused, if it is: for the first check, in order, that it fails.
    pub open spec fn rejection(
        e: ch_ewf_grpc::accounting_reference_date::FiveYearExtensionDetails,
    ) -> Option<Seq<char>> {
        unless(e.extension_reason is Some, "Invalid extension reason"@)
            .otherwise(
                match e.extension_authorization_code {
                    Some(text) => unless(byte_len(text@) == 4, "Invalid extension authorization code"@),
                    None => None,
                },
            )
    }

    /// Whether `self` is the extension `e` as it goes on the wire.
    pub open spec fn is_accepted(self, e: ch_ewf_grpc::accounting_reference_date::FiveYearExtensionDetails) -> bool {
        &&& e.extension_reason == Some(self.extension_reason)
        &&& self.extension_authorised_code == e.extension_authorization_code
    }

    pub fn try_from(
        e: ch_ewf_grpc::accounting_reference_date::FiveYearExtensionDetails,
    ) -> (r: Result<Self, ServiceError>)
        ensures
            match Self::rejection(e) {
                Some(message) => rejected(r, message),
                None => r matches Ok(v) && v.is_accepted(e),
            },
    {
        let extension_reason = match e.extension_reason {
            Some(d) => d,
            None => {
                return invalid_argument("Invalid extension reason");
            },
        };
        match &e.extension_authorization_code {
            Some(text) => {
                if len(text.as_str()) != 4 {
                    return invalid_argument("Invalid extension authorization code");
                }
            },
            None => {},
        }
        Ok(
            proto::accounting_reference_date::FiveYearExtensionDetails {
                extension_reason,
                extension_authorised_code: e.extension_authorization_code,
            },
        )
    }
}

impl proto::accounting_reference_date::ChangeAccountingReferenceDate {
    /// Why the form `msg` is refused, if it is: for the first check, in order, that it fails.
    pub open spec fn rejection(
        msg: ch_ewf_grpc::accounting_reference_date::AccountingReferenceDate,
    ) -> Option<Seq<char>> {
        unless(msg.current_accounting_reference_date is Some, "Current accounting reference date required"@)
            .otherwise(unless(msg.change_to_period is Some, "Invalid change to period"@))
            .otherwise(unless(msg.new_accounting_reference_date is Some, "New accounting reference date required"@))
            .otherwise(
                match msg.five_year_extension_details {
                    Some(five_year_extension_details) => {
                        proto::accounting_reference_date::FiveYearExtensionDetails::rejection(
                            five_year_extension_details,
                        )
                    },
                    None => None,
                },
            )
    }

    /// Whether `self` is the form `msg` as it goes on the wire.
    pub open spec fn is_accepted(self, msg: ch_ewf_grpc::accounting_reference_date::AccountingReferenceDate) -> bool {
        &&& msg.current_accounting_reference_date == Some(self.accounting_reference_date)
        &&& msg.change_to_period == Some(self.change_to_period)
        &&& msg.new_accounting_reference_date == Some(self.amended_accounting_reference_date)
        &&& match msg.five_year_extension_details {
            Some(five_year_extension_details) => {
                self.five_year_extension_details matches Some(got_five_year_extension_details) && got_five_year_extension_details.is_accepted(five_year_extension_details)
            },
            None => self.five_year_extension_details is None,
        }
    }

    pub fn try_from(
        msg: ch_ewf_grpc::accounting_reference_date::AccountingReferenceDate,
    ) -> (r: Result<Self, ServiceError>)
        ensures
            match Self::rejection(msg) {
                Some(message) => rejected(r, message),
                None => r matches Ok(v) && v.is_accepted(msg),
            },
    {
        let accounting_reference_date = match msg.current_accounting_reference_date {
            Some(d) => d,
            None => {
                return invalid_argument("Current accounting reference date required");
            },
        };
        let change_to_period = match msg.change_to_period {
            Some(d) => d,
            None => {
                return invalid_argument("Invalid change to period");
            },
        };
        let amended_accounting_reference_date = match msg.new_accounting_reference_date {
            Some(d) => d,
            None => {
                return invalid_argument("New accounting reference date required");
            },
        };
        let five_year_extension_details = match msg.five_year_extension_details {
            Some(five_year_extension_details) => {
                Some(proto::accounting_reference_date::FiveYearExtensionDetails::try_from(five_year_extension_details)?)
            },
            None => None,
        };
        Ok(
            proto::accounting_reference_date::ChangeAccountingReferenceDate {
                accounting_reference_date,
                change_to_period,
                amended_accounting_reference_date,
                five_year_extension_details,
            },
        )
    }
}

impl CHFillingService {
    /// Checks a change of the accounting reference date and puts the form together.
    pub fn accounting_reference_date(
        msg: ch_ewf_grpc::accounting_reference_date::AccountingReferenceDate,
    ) -> (r: Result<FormRequest, ServiceError>)
        ensures
            match proto::accounting_reference_date::ChangeAccountingReferenceDate::rejection(msg) {
                Some(message) => rejected(r, message),
                None => {
                    &&& r matches Ok(request)
                    &&& request.is_for(msg.form_submission, "ChangeAccountingReferenceDate"@, "ChangeAccountingReferenceDate"@)
                    &&& request.form matches proto::form_submission::Form::ChangeAccountingReferenceDate(form)
                    &&& form.is_accepted(msg)
                },
            },
    {
        let mut msg = msg;
        let form_submission = msg.form_submission.take();
        let form = proto::accounting_reference_date::ChangeAccountingReferenceDate::try_from(msg)?;
        Ok(
            FormRequest {
                form_submission,
                submission_class: "ChangeAccountingReferenceDate".to_owned(),
                form_type: "ChangeAccountingReferenceDate".to_owned(),
                form: proto::form_submission::Form::ChangeAccountingReferenceDate(form),
                documents: Vec::new(),
            },
        )
    }
}

impl proto::change_of_name::ChangeOfName {
    /// Why the form `msg` is refused, if it is: for the first check, in order, that it fails.
    pub open spec fn rejection(msg: ch_ewf_grpc::change_of_name::ChangeOfName) -> Option<Seq<char>> {
        unless(3 <= byte_len(msg.proposed_name@) <= 160, "Invalid proposed name"@)
            .otherwise(unless(msg.notice_given, "Notice given required"@))
            .otherwise(unless(msg.method_of_change is Some, "Invalid method of change"@))
    }

    /// Whether `self` is the form `msg` as it goes on the wire.
    pub open spec fn is_accepted(self, msg: ch_ewf_grpc::change_of_name::ChangeOfName) -> bool {
        &&& self.proposed_company_name@ == uppercase(msg.proposed_name@)
        &&& self.notice_given
        &&& msg.method_of_change == Some(self.method_of_change)
        &&& self.meeting_date == msg.meeting_date
        &&& self.same_day == msg.same_day
    }

    pub fn try_from(msg: ch_ewf_grpc::change_of_name::ChangeOfName) -> (r: Result<Self, ServiceError>)
        ensures
            match Self::rejection(msg) {
                Some(message) => rejected(r, message),
                None => r matches Ok(v) && v.is_accepted(msg),
            },
    {
        if len(msg.proposed_name.as_str()) < 3 || len(msg.proposed_name.as_str()) > 160 {
            return invalid_argument("Invalid proposed name");
        }
        if !msg.notice_given {
            return invalid_argument("Notice given required");
        }
        let method_of_change = match msg.method_of_change {
            Some(d) => d,
            None => {
                return invalid_argument("Invalid method of change");
            },
        };
        Ok(
            proto::change_of_name::ChangeOfName {
                proposed_company_name: to_uppercase(msg.proposed_name.as_str()),
                notice_given: true,
                method_of_change,
                meeting_date: msg.meeting_date,
                same_day: msg.same_day,
            },
        )
    }
}

impl CHFillingService {
    /// Checks a change of name and puts the form together.
    pub fn change_of_name(msg: ch_ewf_grpc::change_of_name::ChangeOfName) -> (r: Result<FormRequest, ServiceError>)
        ensures
            match proto::change_of_name::ChangeOfName::rejection(msg) {
                Some(message) => rejected(r, message),
                None => {
                    &&& r matches Ok(request)
                    &&& request.is_for(msg.form_submission, "ChangeOfName"@, "ChangeOfName"@)
                    &&& request.form matches proto::form_submission::Form::ChangeOfName(form)
                    &&& form.is_accepted(msg)
                },
            },
    {
        let mut msg = msg;
        let form_submission = msg.form_submission.take();
        let form = proto::change_of_name::ChangeOfName::try_from(msg)?;
        Ok(
            FormRequest {
                form_submission,
                submission_class: "ChangeOfName".to_owned(),
                form_type: "ChangeOfName".to_owned(),
                form: proto::form_submission::Form::ChangeOfName(form),
                documents: Vec::new(),
            },
        )
    }
}

/// Why a SIC code is refused, if it is: it is not four or five bytes long, or not all numeric.
pub open spec fn sic_code_rejection(sic: String) -> Option<Seq<char>> {
    unless(4 <= byte_len(sic@) <= 5 && spec_all_numeric(sic@), "Invalid SIC code"@)
}

/// `sic_code_rejection` as a function.
pub open spec fn sic_code_rejection_fn() -> spec_fn(String) -> Option<Seq<char>> {
    |sic: String| sic_code_rejection(sic)
}

/// Checks the SIC codes of a form; none are sent where none are given.
pub fn sic_codes(codes: Vec<String>) -> (r: Result<Option<proto::base_types::SICCodes>, ServiceError>)
    ensures
        match first_rejection(codes@, sic_code_rejection_fn()) {
            Some(message) => rejected(r, message),
            None => r matches Ok(sent) && (if codes@.len() == 0 {
                sent is None
            } else {
                sent == Some(proto::base_types::SICCodes { codes })
            }),
        },
{
    if codes.len() == 0 {
        return Ok(None);
    }
    let mut i: usize = 0;
    while i < codes.len()
        invariant
            i <= codes.len(),
            forall|j: int| 0 <= j < i ==> (sic_code_rejection_fn())(#[trigger] codes@[j]) is None,
        decreases codes.len() - i,
    {
        proof {
            lemma_first_rejection(codes@, sic_code_rejection_fn(), i as int);
        }
        let n = len(codes[i].as_str());
        if n > 5 || n < 4 || !all_numeric(codes[i].as_str()) {
            return invalid_argument("Invalid SIC code");
        }
        i += 1;
    }
    proof {
        lemma_first_rejection(codes@, sic_code_rejection_fn(), codes@.len() as int);
    }
    Ok(Some(proto::base_types::SICCodes { codes }))
}

impl proto::confirmation_statement::Transfer {
    /// Why the transfer `t` is refused, if it is: for the first check, in order, that it fails.
    pub open spec fn rejection(t: ch_ewf_grpc::confirmation_statement::Transfer) -> Option<Seq<char>> {
        unless(t.number_of_shares_transferred.spec_in_range(crate::decimal::MAX_AMOUNT_MICROS), "Invalid number of shares transferred"@)
            .otherwise(unless(t.date_of_transfer is Some, "Date of transfer required"@))
    }

    /// Whether `self` is the transfer `t` as it goes on the wire.
    pub open spec fn is_accepted(self, t: ch_ewf_grpc::confirmation_statement::Transfer) -> bool {
        &&& self.number_of_shares_transferred == t.number_of_shares_transferred
        &&& t.date_of_transfer == Some(self.date_of_transfer)
    }

    pub fn try_from(t: ch_ewf_grpc::confirmation_statement::Transfer) -> (r: Result<Self, ServiceError>)
        ensures
            match Self::rejection(t) {
                Some(message) => rejected(r, message),
                None => r matches Ok(v) && v.is_accepted(t),
            },
    {
        if !t.number_of_shares_transferred.in_range(crate::decimal::MAX_AMOUNT_MICROS) {
            return invalid_argument("Invalid number of shares transferred");
        }
        let date_of_transfer = match t.date_of_transfer {
            Some(d) => d,
            None => {
                return invalid_argument("Date of transfer required");
            },
        };
        Ok(
            proto::confirmation_statement::Transfer {
                number_of_shares_transferred: t.number_of_shares_transferred,
                date_of_transfer,
            },
        )
    }

    /// `rejection` as a function.
    pub open spec fn rejection_fn() -> spec_fn(ch_ewf_grpc::confirmation_statement::Transfer) -> Option<Seq<char>> {
        |t: ch_ewf_grpc::confirmation_statement::Transfer| Self::rejection(t)
    }

    /// Whether `list` holds the items of `items`, each as it goes on the wire, in order.
    pub open spec fn are_accepted(list: Seq<Self>, items: Seq<ch_ewf_grpc::confirmation_statement::Transfer>) -> bool {
        list.len() == items.len() && forall|i: int|
            0 <= i < list.len() ==> (#[trigger] list[i]).is_accepted(items[i])
    }

    /// Checks the items in order and stops at the first that is refused.
    pub fn try_from_all(
        items: Vec<ch_ewf_grpc::confirmation_statement::Transfer>,
    ) -> (r: Result<Vec<Self>, ServiceError>)
        ensures
            match first_rejection(items@, Self::rejection_fn()) {
                Some(message) => rejected(r, message),
                None => r matches Ok(list) && Self::are_accepted(list@, items@),
            },
    {
        let mut list: Vec<Self> = Vec::new();
        let ghost all = items@;
        for item in it: items
            invariant
                it.seq() == all,
                list@.len() == it.index(),
                forall|j: int| 0 <= j < it.index() ==> (Self::rejection_fn())(#[trigger] all[j]) is None,
                forall|j: int| 0 <= j < it.index() ==> (#[trigger] list@[j]).is_accepted(all[j]),
        {
            proof {
                lemma_first_rejection(all, Self::rejection_fn(), it.index() as int);
            }
            let v = Self::try_from(item)?;
            list.push(v);
        }
        proof {
            lemma_first_rejection(all, Self::rejection_fn(), all.len() as int);
        }
        Ok(list)
    }
}

impl proto::confirmation_statement::ShareholderName {
    /// Why the shareholder's name `name` is refused, if it is: it holds none of its kinds, or the
    /// one it holds is refused.
    pub open spec fn rejection(
        name: Option<ch_ewf_grpc::confirmation_statement::ShareholderName>,
    ) -> Option<Seq<char>> {
        match name {
            Some(ch_ewf_grpc::confirmation_statement::ShareholderName::PartsName(p)) => unless(text_ok(p.surname@, 160), "Invalid surname"@).otherwise(
                match p.forename {
                    Some(n) => unless(text_ok(n@, 50), "Invalid forename"@),
                    None => None,
                },
            ),
            Some(ch_ewf_grpc::confirmation_statement::ShareholderName::AmalgamatedName(a)) => {
                unless(text_ok(a@, 160), "Invalid amalgamated name"@)
            },
            None => Some("Shareholder name required"@),
        }
    }

    /// Whether `self` is the shareholder's name `name` as it goes on the wire.
    pub open spec fn is_accepted(self, name: Option<ch_ewf_grpc::confirmation_statement::ShareholderName>) -> bool {
        match name {
            Some(ch_ewf_grpc::confirmation_statement::ShareholderName::PartsName(p)) => self == proto::confirmation_statement::ShareholderName::Name(
                proto::confirmation_statement::Name { forename: p.forename, surname: p.surname },
            ),
            Some(ch_ewf_grpc::confirmation_statement::ShareholderName::AmalgamatedName(a)) => {
                self == proto::confirmation_statement::ShareholderName::AmalgamatedName(a)
            },
            None => false,
        }
    }

    pub fn try_from(
        name: Option<ch_ewf_grpc::confirmation_statement::ShareholderName>,
    ) -> (r: Result<Self, ServiceError>)
        ensures
            match Self::rejection(name) {
                Some(message) => rejected(r, message),
                None => r matches Ok(v) && v.is_accepted(name),
            },
    {
        match name {
            Some(ch_ewf_grpc::confirmation_statement::ShareholderName::PartsName(p)) => {
                if !required_text(p.surname.as_str(), 160) {
                    return invalid_argument("Invalid surname");
                }
                match &p.forename {
                    Some(n) => {
                        if !required_text(n.as_str(), 50) {
                            return invalid_argument("Invalid forename");
                        }
                    },
                    None => {},
                }
                Ok(
                    proto::confirmation_statement::ShareholderName::Name(
                        proto::confirmation_statement::Name { forename: p.forename, surname: p.surname },
                    ),
                )
            },
            Some(ch_ewf_grpc::confirmation_statement::ShareholderName::AmalgamatedName(a)) => {
                if !required_text(a.as_str(), 160) {
                    return invalid_argument("Invalid amalgamated name");
                }
                Ok(proto::confirmation_statement::ShareholderName::AmalgamatedName(a))
            },
            None => invalid_argument("Shareholder name required"),
        }
    }
}

impl proto::confirmation_statement::Shareholder {
    /// Why the shareholder `h` is refused, if it is: for the first check, in order, that it fails.
    pub open spec fn rejection(h: ch_ewf_grpc::confirmation_statement::Shareholder) -> Option<Seq<char>> {
        proto::confirmation_statement::ShareholderName::rejection(h.name)
            .otherwise(
                match h.address {
                    Some(address) => proto::base_types::BaseAddress::rejection(address),
                    None => Some("Shareholder address required"@),
                },
            )
    }

    /// Whether `self` is the shareholder `h` as it goes on the wire.
    pub open spec fn is_accepted(self, h: ch_ewf_grpc::confirmation_statement::Shareholder) -> bool {
        &&& self.name.is_accepted(h.name)
        &&& h.address matches Some(address)
        &&& self.address.is_accepted(address)
    }

    pub fn try_from(h: ch_ewf_grpc::confirmation_statement::Shareholder) -> (r: Result<Self, ServiceError>)
        ensures
            match Self::rejection(h) {
                Some(message) => rejected(r, message),
                None => r matches Ok(v) && v.is_accepted(h),
            },
    {
        let name = proto::confirmation_statement::ShareholderName::try_from(h.name)?;
        let address = match h.address {
            Some(address) => proto::base_types::BaseAddress::try_from(address)?,
            None => {
                return invalid_argument("Shareholder address required");
            },
        };
        Ok(
            proto::confirmation_statement::Shareholder {
                name,
                address,
            },
        )
    }

    /// `rejection` as a function.
    pub open spec fn rejection_fn() -> spec_fn(ch_ewf_grpc::confirmation_statement::Shareholder) -> Option<Seq<char>> {
        |h: ch_ewf_grpc::confirmation_statement::Shareholder| Self::rejection(h)
    }

    /// Whether `list` holds the items of `items`, each as it goes on the wire, in order.
    pub open spec fn are_accepted(
        list: Seq<Self>,
        items: Seq<ch_ewf_grpc::confirmation_statement::Shareholder>,
    ) -> bool {
        list.len() == items.len() && forall|i: int|
            0 <= i < list.len() ==> (#[trigger] list[i]).is_accepted(items[i])
    }

    /// Checks the items in order and stops at the first that is refused.
    pub fn try_from_all(
        items: Vec<ch_ewf_grpc::confirmation_statement::Shareholder>,
    ) -> (r: Result<Vec<Self>, ServiceError>)
        ensures
            match first_rejection(items@, Self::rejection_fn()) {
                Some(message) => rejected(r, message),
                None => r matches Ok(list) && Self::are_accepted(list@, items@),
            },
    {
        let mut list: Vec<Self> = Vec::new();
        let ghost all = items@;
        for item in it: items
            invariant
                it.seq() == all,
                list@.len() == it.index(),
                forall|j: int| 0 <= j < it.index() ==> (Self::rejection_fn())(#[trigger] all[j]) is None,
                forall|j: int| 0 <= j < it.index() ==> (#[trigger] list@[j]).is_accepted(all[j]),
        {
            proof {
                lemma_first_rejection(all, Self::rejection_fn(), it.index() as int);
            }
            let v = Self::try_from(item)?;
            list.push(v);
        }
        proof {
            lemma_first_rejection(all, Self::rejection_fn(), all.len() as int);
        }
        Ok(list)
    }
}

impl proto::confirmation_statement::Shareholding {
    /// Why the shareholding `s` is refused, if it is: for the first check, in order, that it fails.
    pub open spec fn rejection(s: ch_ewf_grpc::confirmation_statement::Shareholding) -> Option<Seq<char>> {
        unless(text_ok(s.share_class@, 50), "Invalid share class"@)
            .otherwise(unless(s.number_held.spec_in_range(crate::decimal::MAX_AMOUNT_MICROS), "Invalid number of shares held"@))
            .otherwise(first_rejection(s.transfers@, proto::confirmation_statement::Transfer::rejection_fn()))
            .otherwise(first_rejection(s.shareholders@, proto::confirmation_statement::Shareholder::rejection_fn()))
    }

    /// Whether `self` is the shareholding `s` as it goes on the wire.
    pub open spec fn is_accepted(self, s: ch_ewf_grpc::confirmation_statement::Shareholding) -> bool {
        &&& self.share_class == s.share_class
        &&& self.number_held == s.number_held
        &&& proto::confirmation_statement::Transfer::are_accepted(self.transfers@, s.transfers@)
        &&& proto::confirmation_statement::Shareholder::are_accepted(self.shareholders@, s.shareholders@)
    }

    pub fn try_from(s: ch_ewf_grpc::confirmation_statement::Shareholding) -> (r: Result<Self, ServiceError>)
        ensures
            match Self::rejection(s) {
                Some(message) => rejected(r, message),
                None => r matches Ok(v) && v.is_accepted(s),
            },
    {
        if !required_text(s.share_class.as_str(), 50) {
            return invalid_argument("Invalid share class");
        }
        if !s.number_held.in_range(crate::decimal::MAX_AMOUNT_MICROS) {
            return invalid_argument("Invalid number of shares held");
        }
        let transfers = proto::confirmation_statement::Transfer::try_from_all(s.transfers)?;
        let shareholders = proto::confirmation_statement::Shareholder::try_from_all(s.shareholders)?;
        Ok(
            proto::confirmation_statement::Shareholding {
                share_class: s.share_class,
                number_held: s.number_held,
                transfers,
                shareholders,
            },
        )
    }

    /// `rejection` as a function.
    pub open spec fn rejection_fn() -> spec_fn(ch_ewf_grpc::confirmation_statement::Shareholding) -> Option<Seq<char>> {
        |s: ch_ewf_grpc::confirmation_statement::Shareholding| Self::rejection(s)
    }

    /// Whether `list` holds the items of `items`, each as it goes on the wire, in order.
    pub open spec fn are_accepted(
        list: Seq<Self>,
        items: Seq<ch_ewf_grpc::confirmation_statement::Shareholding>,
    ) -> bool {
        list.len() == items.len() && forall|i: int|
            0 <= i < list.len() ==> (#[trigger] list[i]).is_accepted(items[i])
    }

    /// Checks the items in order and stops at the first that is refused.
    pub fn try_from_all(
        items: Vec<ch_ewf_grpc::confirmation_statement::Shareholding>,
    ) -> (r: Result<Vec<Self>, ServiceError>)
        ensures
            match first_rejection(items@, Self::rejection_fn()) {
                Some(message) => rejected(r, message),
                None => r matches Ok(list) && Self::are_accepted(list@, items@),
            },
    {
        let mut list: Vec<Self> = Vec::new();
        let ghost all = items@;
        for item in it: items
            invariant
                it.seq() == all,
                list@.len() == it.index(),
                forall|j: int| 0 <= j < it.index() ==> (Self::rejection_fn())(#[trigger] all[j]) is None,
                forall|j: int| 0 <= j < it.index() ==> (#[trigger] list@[j]).is_accepted(all[j]),
        {
            proof {
                lemma_first_rejection(all, Self::rejection_fn(), it.index() as int);
            }
            let v = Self::try_from(item)?;
            list.push(v);
        }
        proof {
            lemma_first_rejection(all, Self::rejection_fn(), all.len() as int);
        }
        Ok(list)
    }
}

impl proto::confirmation_statement::ConfirmationStatement {
    /// Why the form `msg` is refused, if it is: for the first check, in order, that it fails.
    pub open spec fn rejection(msg: ch_ewf_grpc::confirmation_statement::ConfirmationStatement) -> Option<Seq<char>> {
        unless(msg.state_confirmation, "State confirmation must be true"@)
            .otherwise(unless(msg.review_date is Some, "Review date required"@))
            .otherwise(first_rejection(msg.sic_codes@, sic_code_rejection_fn()))
            .otherwise(first_rejection(msg.statement_of_capital@, proto::base_types::Capital::rejection_fn()))
            .otherwise(first_rejection(msg.shareholdings@, proto::confirmation_statement::Shareholding::rejection_fn()))
    }

    /// Whether `self` is the form `msg` as it goes on the wire.
    pub open spec fn is_accepted(self, msg: ch_ewf_grpc::confirmation_statement::ConfirmationStatement) -> bool {
        &&& self.state_confirmation
        &&& msg.review_date == Some(self.review_date)
        &&& self.trading_on_market == msg.trading_on_market
        &&& self.dtr5_applies == msg.dtr5_applies
        &&& self.psc_exempt_as_trading_on_regulated_market == msg.psc_exempt_as_trading_on_regulated_market
        &&& self.psc_exempt_as_shares_admitted_on_market == msg.psc_exempt_as_shares_admitted_on_market
        &&& self.psc_exempt_as_trading_on_uk_regulated_market == msg.psc_exempt_as_trading_on_uk_regulated_market
        &&& self.sic_codes == (if msg.sic_codes@.len() == 0 {
            None
        } else {
            Some(proto::base_types::SICCodes { codes: msg.sic_codes })
        })
        &&& if msg.statement_of_capital@.len() == 0 {
            self.statement_of_capital is None
        } else {
            self.statement_of_capital matches Some(s) && proto::base_types::Capital::are_accepted(
                s.capital@,
                msg.statement_of_capital@,
            )
        }
        &&& proto::confirmation_statement::Shareholding::are_accepted(self.shareholdings@, msg.shareholdings@)
    }

    pub fn try_from(msg: ch_ewf_grpc::confirmation_statement::ConfirmationStatement) -> (r: Result<Self, ServiceError>)
        ensures
            match Self::rejection(msg) {
                Some(message) => rejected(r, message),
                None => r matches Ok(v) && v.is_accepted(msg),
            },
    {
        if !msg.state_confirmation {
            return invalid_argument("State confirmation must be true");
        }
        let review_date = match msg.review_date {
            Some(d) => d,
            None => {
                return invalid_argument("Review date required");
            },
        };
        let sic_codes = sic_codes(msg.sic_codes)?;
        let statement_of_capital = if msg.statement_of_capital.len() == 0 {
            None
        } else {
            Some(
                proto::base_types::StatementOfCapital {
                    capital: proto::base_types::Capital::try_from_all(msg.statement_of_capital)?,
                },
            )
        };
        let shareholdings = proto::confirmation_statement::Shareholding::try_from_all(msg.shareholdings)?;
        Ok(
            proto::confirmation_statement::ConfirmationStatement {
                state_confirmation: true,
                review_date,
                trading_on_market: msg.trading_on_market,
                dtr5_applies: msg.dtr5_applies,
                psc_exempt_as_trading_on_regulated_market: msg.psc_exempt_as_trading_on_regulated_market,
                psc_exempt_as_shares_admitted_on_market: msg.psc_exempt_as_shares_admitted_on_market,
                psc_exempt_as_trading_on_uk_regulated_market: msg.psc_exempt_as_trading_on_uk_regulated_market,
                sic_codes,
                statement_of_capital,
                shareholdings,
            },
        )
    }
}

impl CHFillingService {
    /// Checks a confirmation statement and puts the form together.
    pub fn confirmation_statement(
        msg: ch_ewf_grpc::confirmation_statement::ConfirmationStatement,
    ) -> (r: Result<FormRequest, ServiceError>)
        ensures
            match proto::confirmation_statement::ConfirmationStatement::rejection(msg) {
                Some(message) => rejected(r, message),
                None => {
                    &&& r matches Ok(request)
                    &&& request.is_for(msg.form_submission, "ConfirmationStatement"@, "ConfirmationStatement"@)
                    &&& request.form matches proto::form_submission::Form::ConfirmationStatement(form)
                    &&& form.is_accepted(msg)
                },
            },
    {
        let mut msg = msg;
        let form_submission = msg.form_submission.take();
        let form = proto::confirmation_statement::ConfirmationStatement::try_from(msg)?;
        Ok(
            FormRequest {
                form_submission,
                submission_class: "ConfirmationStatement".to_owned(),
                form_type: "ConfirmationStatement".to_owned(),
                form: proto::form_submission::Form::ConfirmationStatement(form),
                documents: Vec::new(),
            },
        )
    }
}

} // verus!
