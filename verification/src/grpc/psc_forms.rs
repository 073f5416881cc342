//! The forms about persons with significant control and about registers
//! kept at the registry: how each is checked and put together.

use vstd::prelude::*;
use vstd::string::*;
use crate::ch_ewf_grpc;
use crate::error::ServiceError;
use crate::grpc::submission::{spec_register_type, FormRequest};
use crate::grpc::CHFillingService;
use crate::proto;
use crate::rules::{invalid_argument, rejected, required_text, text_ok, unless, Checks};

verus! {

impl proto::psc_notification::PSCNotification {
    /// Why the form `msg` is refused, if it is: for the first check, in order, that it fails.
    pub open spec fn rejection(msg: ch_ewf_grpc::psc_notification::PscNotification) -> Option<Seq<char>> {
        (match msg.notification {
            Some(notification) => {
                proto::psc::PSCNotificationType::<proto::base_types::PersonType2>::rejection(notification)
            },
            None => Some("Notification required"@),
        })
            .otherwise(
                match msg.nature_of_control {
                    Some(nature_of_control) => proto::psc::PSCNatureOfControls::rejection(nature_of_control),
                    None => Some("Nature of control required"@),
                },
            )
            .otherwise(unless(msg.notification_date is Some, "Notification date required"@))
            .otherwise(unless(msg.register_entry_date is Some, "Notification date required"@))
    }

    /// Whether `self` is the form `msg` as it goes on the wire.
    pub open spec fn is_accepted(self, msg: ch_ewf_grpc::psc_notification::PscNotification) -> bool {
        &&& msg.notification matches Some(notification)
        &&& self.notification.is_accepted(notification)
        &&& msg.nature_of_control matches Some(nature_of_control)
        &&& self.nature_of_control.is_accepted(nature_of_control)
        &&& msg.notification_date == Some(self.notification_date)
        &&& msg.register_entry_date == Some(self.register_entry_date)
    }

    pub fn try_from(msg: ch_ewf_grpc::psc_notification::PscNotification) -> (r: Result<Self, ServiceError>)
        ensures
            match Self::rejection(msg) {
                Some(message) => rejected(r, message),
                None => r matches Ok(v) && v.is_accepted(msg),
            },
    {
        let notification = match msg.notification {
            Some(notification) => {
                proto::psc::PSCNotificationType::<proto::base_types::PersonType2>::try_from(notification)?
            },
            None => {
                return invalid_argument("Notification required");
            },
        };
        let nature_of_control = match msg.nature_of_control {
            Some(nature_of_control) => proto::psc::PSCNatureOfControls::try_from(nature_of_control)?,
            None => {
                return invalid_argument("Nature of control required");
            },
        };
        let notification_date = match msg.notification_date {
            Some(d) => d,
            None => {
                return invalid_argument("Notification date required");
            },
        };
        let register_entry_date = match msg.register_entry_date {
            Some(d) => d,
            None => {
                return invalid_argument("Notification date required");
            },
        };
        Ok(
            proto::psc_notification::PSCNotification {
                notification,
                nature_of_control,
                notification_date,
                register_entry_date,
            },
        )
    }
}

impl CHFillingService {
    /// Checks the notification of a person with significant control and puts the form together.
    pub fn psc_notification(
        msg: ch_ewf_grpc::psc_notification::PscNotification,
    ) -> (r: Result<FormRequest, ServiceError>)
        ensures
            match proto::psc_notification::PSCNotification::rejection(msg) {
                Some(message) => rejected(r, message),
                None => {
                    &&& r matches Ok(request)
                    &&& request.is_for(msg.form_submission, "PSCNotification"@, "PSCNotification"@)
                    &&& request.form matches proto::form_submission::Form::PSCNotification(form)
                    &&& form.is_accepted(msg)
                },
            },
    {
        let mut msg = msg;
        let form_submission = msg.form_submission.take();
        let form = proto::psc_notification::PSCNotification::try_from(msg)?;
        Ok(
            FormRequest {
                form_submission,
                submission_class: "PSCNotification".to_owned(),
                form_type: "PSCNotification".to_owned(),
                form: proto::form_submission::Form::PSCNotification(form),
                documents: Vec::new(),
            },
        )
    }
}

impl proto::psc_change_details::Corporate {
    /// Why the change to the corporate entity `c` is refused, if it is: for the first
    /// check, in order, that it fails.
    pub open spec fn rejection(c: ch_ewf_grpc::psc_change_details::CorporateChange) -> Option<Seq<char>> {
        unless(text_ok(c.corporate_name@, 160), "Invalid corporate name"@)
            .otherwise(
                match c.new_corporate_name {
                    Some(text) => unless(text_ok(text@, 160), "Invalid new corporate name"@),
                    None => None,
                },
            )
            .otherwise(
                match c.new_address {
                    Some(address) => proto::base_types::CompanyAddress::rejection(address),
                    None => None,
                },
            )
            .otherwise(
                match c.new_corporate_identification {
                    Some(company_identification) => {
                        proto::psc::PSCCorporateIdentification::rejection(company_identification)
                    },
                    None => None,
                },
            )
            .otherwise(
                match c.new_nature_of_controls {
                    Some(nature_of_controls) => proto::psc::PSCNatureOfControls::rejection(nature_of_controls),
                    None => None,
                },
            )
    }

    /// Whether `self` is the change to the corporate entity `c` as it goes on the wire.
    pub open spec fn is_accepted(self, c: ch_ewf_grpc::psc_change_details::CorporateChange) -> bool {
        &&& self.corporate_name == c.corporate_name
        &&& self.change is Some
        &&& self.change->0.corporate_name == c.new_corporate_name
        &&& match c.new_address {
            Some(address) => self.change->0.address matches Some(got_address) && got_address.is_accepted(address),
            None => self.change->0.address is None,
        }
        &&& match c.new_corporate_identification {
            Some(company_identification) => {
                self.change->0.company_identification matches Some(got_company_identification) && got_company_identification.is_accepted(company_identification)
            },
            None => self.change->0.company_identification is None,
        }
        &&& match c.new_nature_of_controls {
            Some(nature_of_controls) => {
                self.change->0.nature_of_controls matches Some(got_nature_of_controls) && got_nature_of_controls.is_accepted(nature_of_controls)
            },
            None => self.change->0.nature_of_controls is None,
        }
    }

    pub fn try_from(c: ch_ewf_grpc::psc_change_details::CorporateChange) -> (r: Result<Self, ServiceError>)
        ensures
            match Self::rejection(c) {
                Some(message) => rejected(r, message),
                None => r matches Ok(v) && v.is_accepted(c),
            },
    {
        if !required_text(c.corporate_name.as_str(), 160) {
            return invalid_argument("Invalid corporate name");
        }
        match &c.new_corporate_name {
            Some(text) => {
                if !required_text(text.as_str(), 160) {
                    return invalid_argument("Invalid new corporate name");
                }
            },
            None => {},
        }
        let address = match c.new_address {
            Some(address) => Some(proto::base_types::CompanyAddress::try_from(address)?),
            None => None,
        };
        let company_identification = match c.new_corporate_identification {
            Some(company_identification) => {
                Some(proto::psc::PSCCorporateIdentification::try_from(company_identification)?)
            },
            None => None,
        };
        let nature_of_controls = match c.new_nature_of_controls {
            Some(nature_of_controls) => Some(proto::psc::PSCNatureOfControls::try_from(nature_of_controls)?),
            None => None,
        };
        Ok(
            proto::psc_change_details::Corporate {
                corporate_name: c.corporate_name,
                change: Some(
                    proto::psc_change_details::CorporateChange {
                        corporate_name: c.new_corporate_name,
                        address,
                        company_identification,
                        nature_of_controls,
                    },
                ),
            },
        )
    }
}

impl proto::psc_change_details::LegalPerson {
    /// Why the change to the legal person `c` is refused, if it is: for the first check,
    /// in order, that it fails.
    pub open spec fn rejection(c: ch_ewf_grpc::psc_change_details::LegalPersonChange) -> Option<Seq<char>> {
        unless(text_ok(c.legal_person_name@, 160), "Invalid legal person name"@)
            .otherwise(
                match c.new_legal_person_name {
                    Some(text) => unless(text_ok(text@, 160), "Invalid new legal person name"@),
                    None => None,
                },
            )
            .otherwise(
                match c.new_address {
                    Some(address) => proto::base_types::CompanyAddress::rejection(address),
                    None => None,
                },
            )
            .otherwise(
                match c.new_legal_person_identification {
                    Some(legal_person_identification) => {
                        proto::psc::PSCLegalPersonIdentification::rejection(legal_person_identification)
                    },
                    None => None,
                },
            )
            .otherwise(
                match c.new_nature_of_controls {
                    Some(nature_of_controls) => proto::psc::PSCNatureOfControls::rejection(nature_of_controls),
                    None => None,
                },
            )
    }

    /// Whether `self` is the change to the legal person `c` as it goes on the wire.
    pub open spec fn is_accepted(self, c: ch_ewf_grpc::psc_change_details::LegalPersonChange) -> bool {
        &&& self.legal_person_name == c.legal_person_name
        &&& self.change is Some
        &&& self.change->0.legal_person_name == c.new_legal_person_name
        &&& match c.new_address {
            Some(address) => self.change->0.address matches Some(got_address) && got_address.is_accepted(address),
            None => self.change->0.address is None,
        }
        &&& match c.new_legal_person_identification {
            Some(legal_person_identification) => {
                self.change->0.legal_person_identification matches Some(got_legal_person_identification) && got_legal_person_identification.is_accepted(legal_person_identification)
            },
            None => self.change->0.legal_person_identification is None,
        }
        &&& match c.new_nature_of_controls {
            Some(nature_of_controls) => {
                self.change->0.nature_of_controls matches Some(got_nature_of_controls) && got_nature_of_controls.is_accepted(nature_of_controls)
            },
            None => self.change->0.nature_of_controls is None,
        }
    }

    pub fn try_from(c: ch_ewf_grpc::psc_change_details::LegalPersonChange) -> (r: Result<Self, ServiceError>)
        ensures
            match Self::rejection(c) {
                Some(message) => rejected(r, message),
                None => r matches Ok(v) && v.is_accepted(c),
            },
    {
        if !required_text(c.legal_person_name.as_str(), 160) {
            return invalid_argument("Invalid legal person name");
        }
        match &c.new_legal_person_name {
            Some(text) => {
                if !required_text(text.as_str(), 160) {
                    return invalid_argument("Invalid new legal person name");
                }
            },
            None => {},
        }
        let address = match c.new_address {
            Some(address) => Some(proto::base_types::CompanyAddress::try_from(address)?),
            None => None,
        };
        let legal_person_identification = match c.new_legal_person_identification {
            Some(legal_person_identification) => {
                Some(proto::psc::PSCLegalPersonIdentification::try_from(legal_person_identification)?)
            },
            None => None,
        };
        let nature_of_controls = match c.new_nature_of_controls {
            Some(nature_of_controls) => Some(proto::psc::PSCNatureOfControls::try_from(nature_of_controls)?),
            None => None,
        };
        Ok(
            proto::psc_change_details::LegalPerson {
                legal_person_name: c.legal_person_name,
                change: Some(
                    proto::psc_change_details::LegalPersonChange {
                        legal_person_name: c.new_legal_person_name,
                        address,
                        legal_person_identification,
                        nature_of_controls,
                    },
                ),
            },
        )
    }
}

impl proto::psc_change_details::Individual {
    /// Why the change to the individual `c` is refused, if it is: for the first check,
    /// in order, that it fails.
    pub open spec fn rejection(c: ch_ewf_grpc::psc_change_details::IndividualChange) -> Option<Seq<char>> {
        (match c.identification {
            Some(identification) => proto::psc::PSCIdentification::rejection(identification),
            None => Some("Individual identification required"@),
        })
            .otherwise(
                match c.new_name {
                    Some(name) => proto::base_types::PersonType::rejection(name),
                    None => None,
                },
            )
            .otherwise(
                match c.new_service_address {
                    Some(service_address) => proto::base_types::ServiceAddressType::rejection(service_address),
                    None => None,
                },
            )
            .otherwise(
                match c.new_residential_address {
                    Some(residential_address) => {
                        proto::base_types::ResidentialAddressType::rejection(residential_address)
                    },
                    None => None,
                },
            )
            .otherwise(
                match c.new_nationality {
                    Some(text) => unless(text_ok(text@, 50), "Invalid nationality"@),
                    None => None,
                },
            )
            .otherwise(
                match c.new_country_of_residence {
                    Some(text) => unless(text_ok(text@, 50), "Invalid country of residence"@),
                    None => None,
                },
            )
            .otherwise(
                match c.new_nature_of_controls {
                    Some(nature_of_controls) => proto::psc::PSCNatureOfControls::rejection(nature_of_controls),
                    None => None,
                },
            )
    }

    /// Whether `self` is the change to the individual `c` as it goes on the wire.
    pub open spec fn is_accepted(self, c: ch_ewf_grpc::psc_change_details::IndividualChange) -> bool {
        &&& c.identification matches Some(identification)
        &&& self.identification.is_accepted(identification)
        &&& self.change is Some
        &&& match c.new_name {
            Some(name) => self.change->0.name matches Some(got_name) && got_name.is_accepted(name),
            None => self.change->0.name is None,
        }
        &&& match c.new_service_address {
            Some(service_address) => {
                self.change->0.service_address matches Some(got_service_address) && got_service_address.is_accepted(service_address)
            },
            None => self.change->0.service_address is None,
        }
        &&& match c.new_residential_address {
            Some(residential_address) => {
                self.change->0.residential_address matches Some(got_residential_address) && got_residential_address.is_accepted(residential_address)
            },
            None => self.change->0.residential_address is None,
        }
        &&& self.change->0.nationality == c.new_nationality
        &&& self.change->0.country_of_residence == c.new_country_of_residence
        &&& match c.new_nature_of_controls {
            Some(nature_of_controls) => {
                self.change->0.nature_of_controls matches Some(got_nature_of_controls) && got_nature_of_controls.is_accepted(nature_of_controls)
            },
            None => self.change->0.nature_of_controls is None,
        }
    }

    pub fn try_from(c: ch_ewf_grpc::psc_change_details::IndividualChange) -> (r: Result<Self, ServiceError>)
        ensures
            match Self::rejection(c) {
                Some(message) => rejected(r, message),
                None => r matches Ok(v) && v.is_accepted(c),
            },
    {
        let identification = match c.identification {
            Some(identification) => proto::psc::PSCIdentification::try_from(identification)?,
            None => {
                return invalid_argument("Individual identification required");
            },
        };
        let name = match c.new_name {
            Some(name) => Some(proto::base_types::PersonType::try_from(name)?),
            None => None,
        };
        let service_address = match c.new_service_address {
            Some(service_address) => Some(proto::base_types::ServiceAddressType::try_from(service_address)?),
            None => None,
        };
        let residential_address = match c.new_residential_address {
            Some(residential_address) => {
                Some(proto::base_types::ResidentialAddressType::try_from(residential_address)?)
            },
            None => None,
        };
        match &c.new_nationality {
            Some(text) => {
                if !required_text(text.as_str(), 50) {
                    return invalid_argument("Invalid nationality");
                }
            },
            None => {},
        }
        match &c.new_country_of_residence {
            Some(text) => {
                if !required_text(text.as_str(), 50) {
                    return invalid_argument("Invalid country of residence");
                }
            },
            None => {},
        }
        let nature_of_controls = match c.new_nature_of_controls {
            Some(nature_of_controls) => Some(proto::psc::PSCNatureOfControls::try_from(nature_of_controls)?),
            None => None,
        };
        Ok(
            proto::psc_change_details::Individual {
                identification,
                change: Some(
                    proto::psc_change_details::IndividualChange {
                        name,
                        service_address,
                        residential_address,
                        nationality: c.new_nationality,
                        country_of_residence: c.new_country_of_residence,
                        nature_of_controls,
                    },
                ),
            },
        )
    }
}

impl proto::psc_change_details::PSCEntity {
    /// Why the entity `entity` is refused, if it is: it holds none of its kinds, or the one it holds is refused.
    pub open spec fn rejection(entity: Option<ch_ewf_grpc::psc_change_details::Entity>) -> Option<Seq<char>> {
        match entity {
            Some(ch_ewf_grpc::psc_change_details::Entity::Corporate(c)) => {
                proto::psc_change_details::Corporate::rejection(c)
            },
            Some(ch_ewf_grpc::psc_change_details::Entity::LegalPerson(c)) => {
                proto::psc_change_details::LegalPerson::rejection(c)
            },
            Some(ch_ewf_grpc::psc_change_details::Entity::Individual(c)) => {
                proto::psc_change_details::Individual::rejection(c)
            },
            None => Some("Entity changing details must be provided"@),
        }
    }

    /// Whether `self` is the entity `entity` as it goes on the wire.
    pub open spec fn is_accepted(self, entity: Option<ch_ewf_grpc::psc_change_details::Entity>) -> bool {
        match entity {
            Some(ch_ewf_grpc::psc_change_details::Entity::Corporate(c)) => {
                self matches proto::psc_change_details::PSCEntity::Corporate(got) && got.is_accepted(c)
            },
            Some(ch_ewf_grpc::psc_change_details::Entity::LegalPerson(c)) => {
                self matches proto::psc_change_details::PSCEntity::LegalPerson(got) && got.is_accepted(c)
            },
            Some(ch_ewf_grpc::psc_change_details::Entity::Individual(c)) => {
                self matches proto::psc_change_details::PSCEntity::Individual(got) && (*got).is_accepted(c)
            },
            None => false,
        }
    }

    pub fn try_from(entity: Option<ch_ewf_grpc::psc_change_details::Entity>) -> (r: Result<Self, ServiceError>)
        ensures
            match Self::rejection(entity) {
                Some(message) => rejected(r, message),
                None => r matches Ok(v) && v.is_accepted(entity),
            },
    {
        match entity {
            Some(ch_ewf_grpc::psc_change_details::Entity::Corporate(c)) => {
                Ok(proto::psc_change_details::PSCEntity::Corporate(proto::psc_change_details::Corporate::try_from(c)?))
            },
            Some(ch_ewf_grpc::psc_change_details::Entity::LegalPerson(c)) => {
                Ok(
                    proto::psc_change_details::PSCEntity::LegalPerson(
                        proto::psc_change_details::LegalPerson::try_from(c)?,
                    ),
                )
            },
            Some(ch_ewf_grpc::psc_change_details::Entity::Individual(c)) => {
                Ok(
                    proto::psc_change_details::PSCEntity::Individual(
                        Box::new(proto::psc_change_details::Individual::try_from(c)?),
                    ),
                )
            },
            None => invalid_argument("Entity changing details must be provided"),
        }
    }
}

impl proto::psc_change_details::PSCChangeDetails {
    /// Why the form `msg` is refused, if it is: for the first check, in order, that it fails.
    pub open spec fn rejection(msg: ch_ewf_grpc::psc_change_details::PscChangeDetails) -> Option<Seq<char>> {
        proto::psc_change_details::PSCEntity::rejection(msg.entity)
            .otherwise(unless(msg.date_of_change is Some, "Date of change required"@))
            .otherwise(unless(msg.register_entry_date is Some, "Notification date required"@))
    }

    /// Whether `self` is the form `msg` as it goes on the wire.
    pub open spec fn is_accepted(self, msg: ch_ewf_grpc::psc_change_details::PscChangeDetails) -> bool {
        &&& self.entity.is_accepted(msg.entity)
        &&& msg.date_of_change == Some(self.date_of_change)
        &&& msg.register_entry_date == Some(self.register_entry_date)
    }

    pub fn try_from(msg: ch_ewf_grpc::psc_change_details::PscChangeDetails) -> (r: Result<Self, ServiceError>)
        ensures
            match Self::rejection(msg) {
                Some(message) => rejected(r, message),
                None => r matches Ok(v) && v.is_accepted(msg),
            },
    {
        let entity = proto::psc_change_details::PSCEntity::try_from(msg.entity)?;
        let date_of_change = match msg.date_of_change {
            Some(d) => d,
            None => {
                return invalid_argument("Date of change required");
            },
        };
        let register_entry_date = match msg.register_entry_date {
            Some(d) => d,
            None => {
                return invalid_argument("Notification date required");
            },
        };
        Ok(
            proto::psc_change_details::PSCChangeDetails {
                entity,
                date_of_change,
                register_entry_date,
            },
        )
    }
}

impl CHFillingService {
    /// Checks a change in the details of a person with significant control and puts the form together.
    pub fn psc_change_details(
        msg: ch_ewf_grpc::psc_change_details::PscChangeDetails,
    ) -> (r: Result<FormRequest, ServiceError>)
        ensures
            match proto::psc_change_details::PSCChangeDetails::rejection(msg) {
                Some(message) => rejected(r, message),
                None => {
                    &&& r matches Ok(request)
                    &&& request.is_for(msg.form_submission, "PSCChangeDetails"@, "PSCChangeDetails"@)
                    &&& request.form matches proto::form_submission::Form::PSCChangeDetails(form)
                    &&& form.is_accepted(msg)
                },
            },
    {
        let mut msg = msg;
        let form_submission = msg.form_submission.take();
        let form = proto::psc_change_details::PSCChangeDetails::try_from(msg)?;
        Ok(
            FormRequest {
                form_submission,
                submission_class: "PSCChangeDetails".to_owned(),
                form_type: "PSCChangeDetails".to_owned(),
                form: proto::form_submission::Form::PSCChangeDetails(form),
                documents: Vec::new(),
            },
        )
    }
}

impl proto::psc_cessation::PSCEntity {
    /// Why the entity `entity` is refused, if it is: it holds none of its kinds, or the one it holds is refused.
    pub open spec fn rejection(entity: Option<ch_ewf_grpc::psc_cessation::Entity>) -> Option<Seq<char>> {
        match entity {
            Some(ch_ewf_grpc::psc_cessation::Entity::Corporate(c)) => {
                unless(text_ok(c@, 160), "Invalid corporate name"@)
            },
            Some(ch_ewf_grpc::psc_cessation::Entity::LegalPerson(c)) => {
                unless(text_ok(c@, 160), "Invalid legal person name"@)
            },
            Some(ch_ewf_grpc::psc_cessation::Entity::Individual(c)) => proto::psc::PSCIdentification::rejection(c),
            None => Some("Entity must be provided"@),
        }
    }

    /// Whether `self` is the entity `entity` as it goes on the wire.
    pub open spec fn is_accepted(self, entity: Option<ch_ewf_grpc::psc_cessation::Entity>) -> bool {
        match entity {
            Some(ch_ewf_grpc::psc_cessation::Entity::Corporate(c)) => {
                self == proto::psc_cessation::PSCEntity::Corporate(proto::psc_cessation::Corporate { corporate_name: c })
            },
            Some(ch_ewf_grpc::psc_cessation::Entity::LegalPerson(c)) => {
                self == proto::psc_cessation::PSCEntity::LegalPerson(proto::psc_cessation::LegalPerson { legal_person_name: c })
            },
            Some(ch_ewf_grpc::psc_cessation::Entity::Individual(c)) => {
                self matches proto::psc_cessation::PSCEntity::Individual(got) && got.is_accepted(c)
            },
            None => false,
        }
    }

    pub fn try_from(entity: Option<ch_ewf_grpc::psc_cessation::Entity>) -> (r: Result<Self, ServiceError>)
        ensures
            match Self::rejection(entity) {
                Some(message) => rejected(r, message),
                None => r matches Ok(v) && v.is_accepted(entity),
            },
    {
        match entity {
            Some(ch_ewf_grpc::psc_cessation::Entity::Corporate(c)) => {
                if !required_text(c.as_str(), 160) {
                    return invalid_argument("Invalid corporate name");
                }
                Ok(proto::psc_cessation::PSCEntity::Corporate(proto::psc_cessation::Corporate { corporate_name: c }))
            },
            Some(ch_ewf_grpc::psc_cessation::Entity::LegalPerson(c)) => {
                if !required_text(c.as_str(), 160) {
                    return invalid_argument("Invalid legal person name");
                }
                Ok(
                    proto::psc_cessation::PSCEntity::LegalPerson(
                        proto::psc_cessation::LegalPerson { legal_person_name: c },
                    ),
                )
            },
            Some(ch_ewf_grpc::psc_cessation::Entity::Individual(c)) => {
                Ok(proto::psc_cessation::PSCEntity::Individual(proto::psc::PSCIdentification::try_from(c)?))
            },
            None => invalid_argument("Entity must be provided"),
        }
    }
}

impl proto::psc_cessation::PSCCessation {
    /// Why the form `msg` is refused, if it is: for the first check, in order, that it fails.
    pub open spec fn rejection(msg: ch_ewf_grpc::psc_cessation::PscCessation) -> Option<Seq<char>> {
        proto::psc_cessation::PSCEntity::rejection(msg.entity)
            .otherwise(unless(msg.cessation_date is Some, "Cessation date required"@))
            .otherwise(unless(msg.register_entry_date is Some, "Notification date required"@))
    }

    /// Whether `self` is the form `msg` as it goes on the wire.
    pub open spec fn is_accepted(self, msg: ch_ewf_grpc::psc_cessation::PscCessation) -> bool {
        &&& self.entity.is_accepted(msg.entity)
        &&& msg.cessation_date == Some(self.cessation_date)
        &&& msg.register_entry_date == Some(self.register_entry_date)
    }

    pub fn try_from(msg: ch_ewf_grpc::psc_cessation::PscCessation) -> (r: Result<Self, ServiceError>)
        ensures
            match Self::rejection(msg) {
                Some(message) => rejected(r, message),
                None => r matches Ok(v) && v.is_accepted(msg),
            },
    {
        let entity = proto::psc_cessation::PSCEntity::try_from(msg.entity)?;
        let cessation_date = match msg.cessation_date {
            Some(d) => d,
            None => {
                return invalid_argument("Cessation date required");
            },
        };
        let register_entry_date = match msg.register_entry_date {
            Some(d) => d,
            None => {
                return invalid_argument("Notification date required");
            },
        };
        Ok(
            proto::psc_cessation::PSCCessation {
                entity,
                cessation_date,
                register_entry_date,
            },
        )
    }
}

impl CHFillingService {
    /// Checks the cessation of a person with significant control and puts the form together.
    pub fn psc_cessation(msg: ch_ewf_grpc::psc_cessation::PscCessation) -> (r: Result<FormRequest, ServiceError>)
        ensures
            match proto::psc_cessation::PSCCessation::rejection(msg) {
                Some(message) => rejected(r, message),
                None => {
                    &&& r matches Ok(request)
                    &&& request.is_for(msg.form_submission, "PSCCessation"@, "PSCCessation"@)
                    &&& request.form matches proto::form_submission::Form::PSCCessation(form)
                    &&& form.is_accepted(msg)
                },
            },
    {
        let mut msg = msg;
        let form_submission = msg.form_submission.take();
        let form = proto::psc_cessation::PSCCessation::try_from(msg)?;
        Ok(
            FormRequest {
                form_submission,
                submission_class: "PSCCessation".to_owned(),
                form_type: "PSCCessation".to_owned(),
                form: proto::form_submission::Form::PSCCessation(form),
                documents: Vec::new(),
            },
        )
    }
}

impl proto::psc_statement_notification::PSCStatementNotification {
    /// Why the form `msg` is refused, if it is: for the first check, in order, that it fails.
    pub open spec fn rejection(
        msg: ch_ewf_grpc::psc_statement_notification::PscStatementNotification,
    ) -> Option<Seq<char>> {
        (match msg.statement_notification {
            Some(notification) => proto::psc::PSCStatementNotificationType::rejection(notification),
            None => Some("Statement notification required"@),
        })
            .otherwise(unless(msg.register_entry_date is Some, "Notification date required"@))
    }

    /// Whether `self` is the form `msg` as it goes on the wire.
    pub open spec fn is_accepted(self, msg: ch_ewf_grpc::psc_statement_notification::PscStatementNotification) -> bool {
        &&& msg.statement_notification matches Some(notification)
        &&& self.notification.is_accepted(notification)
        &&& msg.register_entry_date == Some(self.register_entry_date)
    }

    pub fn try_from(
        msg: ch_ewf_grpc::psc_statement_notification::PscStatementNotification,
    ) -> (r: Result<Self, ServiceError>)
        ensures
            match Self::rejection(msg) {
                Some(message) => rejected(r, message),
                None => r matches Ok(v) && v.is_accepted(msg),
            },
    {
        let notification = match msg.statement_notification {
            Some(notification) => proto::psc::PSCStatementNotificationType::try_from(notification)?,
            None => {
                return invalid_argument("Statement notification required");
            },
        };
        let register_entry_date = match msg.register_entry_date {
            Some(d) => d,
            None => {
                return invalid_argument("Notification date required");
            },
        };
        Ok(
            proto::psc_statement_notification::PSCStatementNotification {
                notification,
                register_entry_date,
            },
        )
    }
}

impl CHFillingService {
    /// Checks a statement about persons with significant control and puts the form together.
    pub fn psc_statement_notification(
        msg: ch_ewf_grpc::psc_statement_notification::PscStatementNotification,
    ) -> (r: Result<FormRequest, ServiceError>)
        ensures
            match proto::psc_statement_notification::PSCStatementNotification::rejection(msg) {
                Some(message) => rejected(r, message),
                None => {
                    &&& r matches Ok(request)
                    &&& request.is_for(msg.form_submission, "PSCStatementNotification"@, "PSCStatementNotification"@)
                    &&& request.form matches proto::form_submission::Form::PSCStatementNotification(form)
                    &&& form.is_accepted(msg)
                },
            },
    {
        let mut msg = msg;
        let form_submission = msg.form_submission.take();
        let form = proto::psc_statement_notification::PSCStatementNotification::try_from(msg)?;
        Ok(
            FormRequest {
                form_submission,
                submission_class: "PSCStatementNotification".to_owned(),
                form_type: "PSCStatementNotification".to_owned(),
                form: proto::form_submission::Form::PSCStatementNotification(form),
                documents: Vec::new(),
            },
        )
    }
}

/// The reason for withdrawing a restrictions notice as the wire names it; nothing where there is none.
pub open spec fn spec_withdrawal_reason(
    reason: ch_ewf_grpc::psc_statement_withdrawal::RestrictionsNoticeWithdrawalReason,
) -> Option<proto::psc_statement_withdrawal::RestrictionsNoticeWithdrawalReason> {
    match reason {
        ch_ewf_grpc::psc_statement_withdrawal::RestrictionsNoticeWithdrawalReason::NoReason => None,
        ch_ewf_grpc::psc_statement_withdrawal::RestrictionsNoticeWithdrawalReason::WithdrawnByCompany => Some(
            proto::psc_statement_withdrawal::RestrictionsNoticeWithdrawalReason::WithdrawnByCompany,
        ),
        ch_ewf_grpc::psc_statement_withdrawal::RestrictionsNoticeWithdrawalReason::WithdrawnByCourtOrder => Some(
            proto::psc_statement_withdrawal::RestrictionsNoticeWithdrawalReason::WithdrawnByCourtOrder,
        ),
    }
}

/// The reason for withdrawing a restrictions notice as the wire names it.
pub fn withdrawal_reason(
    reason: ch_ewf_grpc::psc_statement_withdrawal::RestrictionsNoticeWithdrawalReason,
) -> (r: Option<
    proto::psc_statement_withdrawal::RestrictionsNoticeWithdrawalReason,
>)
    ensures
        r == spec_withdrawal_reason(reason),
{
    match reason {
        ch_ewf_grpc::psc_statement_withdrawal::RestrictionsNoticeWithdrawalReason::NoReason => None,
        ch_ewf_grpc::psc_statement_withdrawal::RestrictionsNoticeWithdrawalReason::WithdrawnByCompany => Some(
            proto::psc_statement_withdrawal::RestrictionsNoticeWithdrawalReason::WithdrawnByCompany,
        ),
        ch_ewf_grpc::psc_statement_withdrawal::RestrictionsNoticeWithdrawalReason::WithdrawnByCourtOrder => Some(
            proto::psc_statement_withdrawal::RestrictionsNoticeWithdrawalReason::WithdrawnByCourtOrder,
        ),
    }
}

impl proto::psc_statement_withdrawal::PSCStatementWithdrawal {
    /// Why the form `msg` is refused, if it is: for the first check, in order, that it fails.
    pub open spec fn rejection(
        msg: ch_ewf_grpc::psc_statement_withdrawal::PscStatementWithdrawal,
    ) -> Option<Seq<char>> {
        (match msg.statement_notification {
            Some(notification) => proto::psc::PSCStatementNotificationType::rejection(notification),
            None => Some("Statement notification required"@),
        })
            .otherwise(unless(msg.withdrawal_date is Some, "Withdrawal date required"@))
            .otherwise(unless(msg.restrictions_notice_withdrawal_reason is Some, "Invalid restrictions notice withdrawal reason"@))
            .otherwise(unless(msg.register_entry_date is Some, "Notification date required"@))
    }

    /// Whether `self` is the form `msg` as it goes on the wire.
    pub open spec fn is_accepted(self, msg: ch_ewf_grpc::psc_statement_withdrawal::PscStatementWithdrawal) -> bool {
        &&& msg.statement_notification matches Some(notification)
        &&& self.notification.is_accepted(notification)
        &&& msg.withdrawal_date == Some(self.withdrawal_date)
        &&& msg.restrictions_notice_withdrawal_reason matches Some(v_restrictions_notice_withdrawal_reason)
        &&& self.restrictions_notice_withdrawal_reason == spec_withdrawal_reason(v_restrictions_notice_withdrawal_reason)
        &&& msg.register_entry_date == Some(self.register_entry_date)
    }

    pub fn try_from(
        msg: ch_ewf_grpc::psc_statement_withdrawal::PscStatementWithdrawal,
    ) -> (r: Result<Self, ServiceError>)
        ensures
            match Self::rejection(msg) {
                Some(message) => rejected(r, message),
                None => r matches Ok(v) && v.is_accepted(msg),
            },
    {
        let notification = match msg.statement_notification {
            Some(notification) => proto::psc::PSCStatementNotificationType::try_from(notification)?,
            None => {
                return invalid_argument("Statement notification required");
            },
        };
        let withdrawal_date = match msg.withdrawal_date {
            Some(d) => d,
            None => {
                return invalid_argument("Withdrawal date required");
            },
        };
        let restrictions_notice_withdrawal_reason = match msg.restrictions_notice_withdrawal_reason {
            Some(v) => withdrawal_reason(v),
            None => {
                return invalid_argument("Invalid restrictions notice withdrawal reason");
            },
        };
        let register_entry_date = match msg.register_entry_date {
            Some(d) => d,
            None => {
                return invalid_argument("Notification date required");
            },
        };
        Ok(
            proto::psc_statement_withdrawal::PSCStatementWithdrawal {
                notification,
                withdrawal_date,
                restrictions_notice_withdrawal_reason,
                register_entry_date,
            },
        )
    }
}

impl CHFillingService {
    /// Checks the withdrawal of a statement about persons with significant control and puts the form together.
    pub fn psc_statement_withdrawal(
        msg: ch_ewf_grpc::psc_statement_withdrawal::PscStatementWithdrawal,
    ) -> (r: Result<FormRequest, ServiceError>)
        ensures
            match proto::psc_statement_withdrawal::PSCStatementWithdrawal::rejection(msg) {
                Some(message) => rejected(r, message),
                None => {
                    &&& r matches Ok(request)
                    &&& request.is_for(msg.form_submission, "PSCStatementWithdrawal"@, "PSCStatementWithdrawal"@)
                    &&& request.form matches proto::form_submission::Form::PSCStatementWithdrawal(form)
                    &&& form.is_accepted(msg)
                },
            },
    {
        let mut msg = msg;
        let form_submission = msg.form_submission.take();
        let form = proto::psc_statement_withdrawal::PSCStatementWithdrawal::try_from(msg)?;
        Ok(
            FormRequest {
                form_submission,
                submission_class: "PSCStatementWithdrawal".to_owned(),
                form_type: "PSCStatementWithdrawal".to_owned(),
                form: proto::form_submission::Form::PSCStatementWithdrawal(form),
                documents: Vec::new(),
            },
        )
    }
}

/// The choice between electing and withdrawing as the wire has it.
pub open spec fn spec_elect_or_withdraw(
    choice: ch_ewf_grpc::register_elect_or_withdraw::ElectOrWithdraw,
) -> proto::register_elect_or_withdraw::ElectOrWithdraw {
    match choice {
        ch_ewf_grpc::register_elect_or_withdraw::ElectOrWithdraw::Elect => proto::register_elect_or_withdraw::ElectOrWithdraw::Elect(
            true,
        ),
        ch_ewf_grpc::register_elect_or_withdraw::ElectOrWithdraw::Withdraw => proto::register_elect_or_withdraw::ElectOrWithdraw::Withdraw(
            true,
        ),
    }
}

/// The choice between electing and withdrawing as the wire has it.
pub fn elect_or_withdraw(choice: ch_ewf_grpc::register_elect_or_withdraw::ElectOrWithdraw) -> (r:
    proto::register_elect_or_withdraw::ElectOrWithdraw)
    ensures
        r == spec_elect_or_withdraw(choice),
{
    match choice {
        ch_ewf_grpc::register_elect_or_withdraw::ElectOrWithdraw::Elect => proto::register_elect_or_withdraw::ElectOrWithdraw::Elect(
            true,
        ),
        ch_ewf_grpc::register_elect_or_withdraw::ElectOrWithdraw::Withdraw => proto::register_elect_or_withdraw::ElectOrWithdraw::Withdraw(
            true,
        ),
    }
}

/// The register as the wire names it.
pub fn register_type(register: ch_ewf_grpc::base_types::Register) -> (r: proto::base_types::RegisterType)
    ensures
        r == spec_register_type(register),
{
    match CHFillingService::map_register_type(Some(register)) {
        Some(r) => r,
        None => proto::base_types::RegisterType::Directors,
    }
}

impl proto::register_elect_or_withdraw::RegisterElectOrWithdraw {
    /// Why the form `msg` is refused, if it is: for the first check, in order, that it fails.
    pub open spec fn rejection(
        msg: ch_ewf_grpc::register_elect_or_withdraw::RegisterElectOrWithdraw,
    ) -> Option<Seq<char>> {
        unless(msg.elect_or_withdraw is Some, "Invalid elect or withdraw"@)
            .otherwise(unless(msg.register is Some, "Invalid register"@))
    }

    /// Whether `self` is the form `msg` as it goes on the wire.
    pub open spec fn is_accepted(self, msg: ch_ewf_grpc::register_elect_or_withdraw::RegisterElectOrWithdraw) -> bool {
        &&& msg.elect_or_withdraw matches Some(v_elect_or_withdraw)
        &&& self.elect_or_withdraw == spec_elect_or_withdraw(v_elect_or_withdraw)
        &&& msg.register matches Some(v_register_type)
        &&& self.register_type == spec_register_type(v_register_type)
    }

    pub fn try_from(
        msg: ch_ewf_grpc::register_elect_or_withdraw::RegisterElectOrWithdraw,
    ) -> (r: Result<Self, ServiceError>)
        ensures
            match Self::rejection(msg) {
                Some(message) => rejected(r, message),
                None => r matches Ok(v) && v.is_accepted(msg),
            },
    {
        let elect_or_withdraw = match msg.elect_or_withdraw {
            Some(v) => elect_or_withdraw(v),
            None => {
                return invalid_argument("Invalid elect or withdraw");
            },
        };
        let register_type = match msg.register {
            Some(v) => register_type(v),
            None => {
                return invalid_argument("Invalid register");
            },
        };
        Ok(
            proto::register_elect_or_withdraw::RegisterElectOrWithdraw {
                elect_or_withdraw,
                register_type,
            },
        )
    }
}

impl CHFillingService {
    /// Checks an election to keep a register at the registry, or its withdrawal and puts the form together.
    pub fn register_elect_or_withdraw(
        msg: ch_ewf_grpc::register_elect_or_withdraw::RegisterElectOrWithdraw,
    ) -> (r: Result<FormRequest, ServiceError>)
        ensures
            match proto::register_elect_or_withdraw::RegisterElectOrWithdraw::rejection(msg) {
                Some(message) => rejected(r, message),
                None => {
                    &&& r matches Ok(request)
                    &&& request.is_for(msg.form_submission, "RegisterElectOrWithdraw"@, "RegisterElectOrWithdraw"@)
                    &&& request.form matches proto::form_submission::Form::RegisterElectOrWithdraw(form)
                    &&& form.is_accepted(msg)
                },
            },
    {
        let mut msg = msg;
        let form_submission = msg.form_submission.take();
        let form = proto::register_elect_or_withdraw::RegisterElectOrWithdraw::try_from(msg)?;
        Ok(
            FormRequest {
                form_submission,
                submission_class: "RegisterElectOrWithdraw".to_owned(),
                form_type: "RegisterElectOrWithdraw".to_owned(),
                form: proto::form_submission::Form::RegisterElectOrWithdraw(form),
                documents: Vec::new(),
            },
        )
    }
}

} // verus!
