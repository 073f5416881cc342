//! How the parts of a request that describe persons with significant control
//! are checked and turned into what goes on the wire.

use vstd::prelude::*;
use vstd::string::*;
use crate::ch_ewf_grpc;
use crate::error::ServiceError;
use crate::proto;
use crate::rules::{
    all_named, are_named, invalid_argument, named, non_empty, optional, optional_ok, optional_text, rejected,
    required_text, text_ok, unless, Checks,
};

verus! {

impl proto::psc::PSCCorporateIdentification {
    /// Why the identification `value` is refused, if it is: for the first check, in order, that it fails.
    pub open spec fn rejection(value: ch_ewf_grpc::psc::CorporateIdentification) -> Option<Seq<char>> {
        unless(text_ok(value.law_governed@, 160), "Invalid law governed"@)
            .otherwise(unless(text_ok(value.legal_form@, 160), "Invalid legal form"@))
            .otherwise(unless(optional_ok(value.place_registered@, 160), "Invalid place registered"@))
            .otherwise(unless(optional_ok(value.registration_number@, 160), "Invalid registration number"@))
            .otherwise(unless(optional_ok(value.country_or_state@, 50), "Invalid country or state"@))
    }

    /// Whether `self` is the identification `value` as it goes on the wire.
    pub open spec fn is_accepted(self, value: ch_ewf_grpc::psc::CorporateIdentification) -> bool {
        &&& self.law_governed == value.law_governed
        &&& self.legal_form == value.legal_form
        &&& self.place_registered == optional(value.place_registered)
        &&& self.registration_number == optional(value.registration_number)
        &&& self.country_or_state == optional(value.country_or_state)
    }

    pub fn try_from(value: ch_ewf_grpc::psc::CorporateIdentification) -> (r: Result<Self, ServiceError>)
        ensures
            match Self::rejection(value) {
                Some(message) => rejected(r, message),
                None => r matches Ok(v) && v.is_accepted(value),
            },
    {
        if !required_text(value.law_governed.as_str(), 160) {
            return invalid_argument("Invalid law governed");
        }
        if !required_text(value.legal_form.as_str(), 160) {
            return invalid_argument("Invalid legal form");
        }
        if !optional_text(value.place_registered.as_str(), 160) {
            return invalid_argument("Invalid place registered");
        }
        if !optional_text(value.registration_number.as_str(), 160) {
            return invalid_argument("Invalid registration number");
        }
        if !optional_text(value.country_or_state.as_str(), 50) {
            return invalid_argument("Invalid country or state");
        }
        Ok(
            proto::psc::PSCCorporateIdentification {
                law_governed: value.law_governed,
                legal_form: value.legal_form,
                place_registered: non_empty(value.place_registered),
                registration_number: non_empty(value.registration_number),
                country_or_state: non_empty(value.country_or_state),
            },
        )
    }
}

impl proto::psc::PSCLegalPersonIdentification {
    /// Why the identification `value` is refused, if it is: for the first check, in order, that it fails.
    pub open spec fn rejection(value: ch_ewf_grpc::psc::LegalPersonIdentification) -> Option<Seq<char>> {
        unless(text_ok(value.law_governed@, 160), "Invalid law governed"@)
            .otherwise(unless(text_ok(value.legal_form@, 160), "Invalid legal form"@))
    }

    /// Whether `self` is the identification `value` as it goes on the wire.
    pub open spec fn is_accepted(self, value: ch_ewf_grpc::psc::LegalPersonIdentification) -> bool {
        &&& self.law_governed == value.law_governed
        &&& self.legal_form == value.legal_form
    }

    pub fn try_from(value: ch_ewf_grpc::psc::LegalPersonIdentification) -> (r: Result<Self, ServiceError>)
        ensures
            match Self::rejection(value) {
                Some(message) => rejected(r, message),
                None => r matches Ok(v) && v.is_accepted(value),
            },
    {
        if !required_text(value.law_governed.as_str(), 160) {
            return invalid_argument("Invalid law governed");
        }
        if !required_text(value.legal_form.as_str(), 160) {
            return invalid_argument("Invalid legal form");
        }
        Ok(
            proto::psc::PSCLegalPersonIdentification {
                law_governed: value.law_governed,
                legal_form: value.legal_form,
            },
        )
    }
}

impl proto::psc::PSCIdentification {
    /// Why the identification `value` is refused, if it is: for the first check, in order, that it fails.
    pub open spec fn rejection(value: ch_ewf_grpc::psc::IndividualIdentification) -> Option<Seq<char>> {
        (match value.name {
            Some(name) => proto::base_types::PersonType::rejection(name),
            None => Some("Name required"@),
        })
            .otherwise(
                match value.partial_dob {
                    Some(d) => unless(1 <= d.month <= 12, "Invalid month"@),
                    None => None,
                },
            )
    }

    /// Whether `self` is the identification `value` as it goes on the wire.
    pub open spec fn is_accepted(self, value: ch_ewf_grpc::psc::IndividualIdentification) -> bool {
        &&& value.name matches Some(name)
        &&& self.name.is_accepted(name)
        &&& match value.partial_dob {
            Some(d) => self.partial_dob == Some(proto::base_types::PartialDOBType { month: d.month, year: d.year }),
            None => self.partial_dob is None,
        }
    }

    pub fn try_from(value: ch_ewf_grpc::psc::IndividualIdentification) -> (r: Result<Self, ServiceError>)
        ensures
            match Self::rejection(value) {
                Some(message) => rejected(r, message),
                None => r matches Ok(v) && v.is_accepted(value),
            },
    {
        let name = match value.name {
            Some(name) => proto::base_types::PersonType::try_from(name)?,
            None => {
                return invalid_argument("Name required");
            },
        };
        let partial_dob = match value.partial_dob {
            Some(d) => {
                if d.month < 1 || d.month > 12 {
                    return invalid_argument("Invalid month");
                }
                Some(proto::base_types::PartialDOBType { month: d.month, year: d.year })
            },
            None => None,
        };
        Ok(
            proto::psc::PSCIdentification {
                name,
                partial_dob,
            },
        )
    }
}

impl proto::psc::PSCCorporateEntity {
    /// Why the corporate entity `c` is refused, if it is: for the first check, in order, that it fails.
    pub open spec fn rejection(c: ch_ewf_grpc::psc::CorporateEntity) -> Option<Seq<char>> {
        unless(text_ok(c.corporate_name@, 160), "Invalid corporate name"@)
            .otherwise(
                match c.address {
                    Some(address) => proto::base_types::CompanyAddress::rejection(address),
                    None => Some("Address required"@),
                },
            )
            .otherwise(
                match c.corporate_identification {
                    Some(corporate_identification) => {
                        proto::psc::PSCCorporateIdentification::rejection(corporate_identification)
                    },
                    None => Some("Corporate identification required"@),
                },
            )
    }

    /// Whether `self` is the corporate entity `c` as it goes on the wire.
    pub open spec fn is_accepted(self, c: ch_ewf_grpc::psc::CorporateEntity) -> bool {
        &&& self.corporate_name == c.corporate_name
        &&& c.address matches Some(address)
        &&& self.address.is_accepted(address)
        &&& c.corporate_identification matches Some(corporate_identification)
        &&& self.company_identification.is_accepted(corporate_identification)
    }

    pub fn try_from(c: ch_ewf_grpc::psc::CorporateEntity) -> (r: Result<Self, ServiceError>)
        ensures
            match Self::rejection(c) {
                Some(message) => rejected(r, message),
                None => r matches Ok(v) && v.is_accepted(c),
            },
    {
        if !required_text(c.corporate_name.as_str(), 160) {
            return invalid_argument("Invalid corporate name");
        }
        let address = match c.address {
            Some(address) => proto::base_types::CompanyAddress::try_from(address)?,
            None => {
                return invalid_argument("Address required");
            },
        };
        let corporate_identification = match c.corporate_identification {
            Some(corporate_identification) => {
                proto::psc::PSCCorporateIdentification::try_from(corporate_identification)?
            },
            None => {
                return invalid_argument("Corporate identification required");
            },
        };
        Ok(
            proto::psc::PSCCorporateEntity {
                corporate_name: c.corporate_name,
                address,
                company_identification: corporate_identification,
            },
        )
    }
}

impl proto::psc::PSCLegalPerson {
    /// Why the legal person `c` is refused, if it is: for the first check, in order, that it fails.
    pub open spec fn rejection(c: ch_ewf_grpc::psc::LegalPerson) -> Option<Seq<char>> {
        unless(text_ok(c.name@, 160), "Invalid legal person name"@)
            .otherwise(
                match c.address {
                    Some(address) => proto::base_types::CompanyAddress::rejection(address),
                    None => Some("Address required"@),
                },
            )
            .otherwise(
                match c.legal_person_identification {
                    Some(legal_person_identification) => {
                        proto::psc::PSCLegalPersonIdentification::rejection(legal_person_identification)
                    },
                    None => Some("Legal person identification required"@),
                },
            )
    }

    /// Whether `self` is the legal person `c` as it goes on the wire.
    pub open spec fn is_accepted(self, c: ch_ewf_grpc::psc::LegalPerson) -> bool {
        &&& self.name == c.name
        &&& c.address matches Some(address)
        &&& self.address.is_accepted(address)
        &&& c.legal_person_identification matches Some(legal_person_identification)
        &&& self.legal_person_identification.is_accepted(legal_person_identification)
    }

    pub fn try_from(c: ch_ewf_grpc::psc::LegalPerson) -> (r: Result<Self, ServiceError>)
        ensures
            match Self::rejection(c) {
                Some(message) => rejected(r, message),
                None => r matches Ok(v) && v.is_accepted(c),
            },
    {
        if !required_text(c.name.as_str(), 160) {
            return invalid_argument("Invalid legal person name");
        }
        let address = match c.address {
            Some(address) => proto::base_types::CompanyAddress::try_from(address)?,
            None => {
                return invalid_argument("Address required");
            },
        };
        let legal_person_identification = match c.legal_person_identification {
            Some(legal_person_identification) => {
                proto::psc::PSCLegalPersonIdentification::try_from(legal_person_identification)?
            },
            None => {
                return invalid_argument("Legal person identification required");
            },
        };
        Ok(
            proto::psc::PSCLegalPerson {
                name: c.name,
                address,
                legal_person_identification,
            },
        )
    }
}

impl proto::psc::PSCIndividual<proto::base_types::PersonType2> {
    /// Why the individual `c` is refused, if it is: for the first check, in order, that it fails.
    pub open spec fn rejection(c: ch_ewf_grpc::psc::Individual) -> Option<Seq<char>> {
        unless(text_ok(c.nationality@, 50), "Invalid nationality"@)
            .otherwise(unless(text_ok(c.country_of_residence@, 50), "Invalid country of residence"@))
            .otherwise(
                match c.person {
                    Some(person) => proto::base_types::PersonType2::rejection(person),
                    None => Some("Name required"@),
                },
            )
            .otherwise(
                match c.service_address {
                    Some(service_address) => proto::base_types::ServiceAddressType::rejection(service_address),
                    None => Some("Service address required"@),
                },
            )
            .otherwise(unless(c.date_of_birth is Some, "Date of birth required"@))
            .otherwise(
                match c.residential_address {
                    Some(residential_address) => {
                        proto::base_types::ResidentialAddressType::rejection(residential_address)
                    },
                    None => Some("Residential address required"@),
                },
            )
    }

    /// Whether `self` is the individual `c` as it goes on the wire.
    pub open spec fn is_accepted(self, c: ch_ewf_grpc::psc::Individual) -> bool {
        &&& self.nationality == c.nationality
        &&& self.country_of_residence == Some(c.country_of_residence)
        &&& c.person matches Some(person)
        &&& self.person.is_accepted(person)
        &&& c.service_address matches Some(service_address)
        &&& self.service_address.is_accepted(service_address)
        &&& c.date_of_birth == Some(self.date_of_birth)
        &&& c.residential_address matches Some(residential_address)
        &&& self.residential_address.is_accepted(residential_address)
    }

    pub fn try_from(c: ch_ewf_grpc::psc::Individual) -> (r: Result<Self, ServiceError>)
        ensures
            match Self::rejection(c) {
                Some(message) => rejected(r, message),
                None => r matches Ok(v) && v.is_accepted(c),
            },
    {
        if !required_text(c.nationality.as_str(), 50) {
            return invalid_argument("Invalid nationality");
        }
        if !required_text(c.country_of_residence.as_str(), 50) {
            return invalid_argument("Invalid country of residence");
        }
        let person = match c.person {
            Some(person) => proto::base_types::PersonType2::try_from(person)?,
            None => {
                return invalid_argument("Name required");
            },
        };
        let service_address = match c.service_address {
            Some(service_address) => proto::base_types::ServiceAddressType::try_from(service_address)?,
            None => {
                return invalid_argument("Service address required");
            },
        };
        let date_of_birth = match c.date_of_birth {
            Some(d) => d,
            None => {
                return invalid_argument("Date of birth required");
            },
        };
        let residential_address = match c.residential_address {
            Some(residential_address) => proto::base_types::ResidentialAddressType::try_from(residential_address)?,
            None => {
                return invalid_argument("Residential address required");
            },
        };
        Ok(
            proto::psc::PSCIndividual {
                nationality: c.nationality,
                country_of_residence: Some(c.country_of_residence),
                person,
                service_address,
                date_of_birth,
                residential_address,
            },
        )
    }
}

impl proto::psc::PSCNotificationType<proto::base_types::PersonType2> {
    /// Why the notification `value` is refused, if it is: it names no
    /// entity, or the entity it names is refused.
    pub open spec fn rejection(value: ch_ewf_grpc::psc::Notification) -> Option<Seq<char>> {
        match value.psc {
            Some(ch_ewf_grpc::psc::NotificationPsc::Corporate(c)) => proto::psc::PSCCorporateEntity::rejection(c),
            Some(ch_ewf_grpc::psc::NotificationPsc::LegalPerson(c)) => proto::psc::PSCLegalPerson::rejection(c),
            Some(ch_ewf_grpc::psc::NotificationPsc::Individual(c)) => proto::psc::PSCIndividual::<
                proto::base_types::PersonType2,
            >::rejection(c),
            None => Some("PSC entity number"@),
        }
    }

    /// Whether `self` is the notification `value` as it goes on the wire.
    pub open spec fn is_accepted(self, value: ch_ewf_grpc::psc::Notification) -> bool {
        match value.psc {
            Some(ch_ewf_grpc::psc::NotificationPsc::Corporate(c)) => self matches proto::psc::PSCNotificationType::Corporate(
                v,
            ) && v.is_accepted(c),
            Some(ch_ewf_grpc::psc::NotificationPsc::LegalPerson(c)) => self matches proto::psc::PSCNotificationType::LegalPerson(
                v,
            ) && v.is_accepted(c),
            Some(ch_ewf_grpc::psc::NotificationPsc::Individual(c)) => self matches proto::psc::PSCNotificationType::Individual(
                v,
            ) && (*v).is_accepted(c),
            None => false,
        }
    }

    pub fn try_from(value: ch_ewf_grpc::psc::Notification) -> (r: Result<Self, ServiceError>)
        ensures
            match Self::rejection(value) {
                Some(message) => rejected(r, message),
                None => r matches Ok(v) && v.is_accepted(value),
            },
    {
        match value.psc {
            Some(ch_ewf_grpc::psc::NotificationPsc::Corporate(c)) => Ok(
                proto::psc::PSCNotificationType::Corporate(proto::psc::PSCCorporateEntity::try_from(c)?),
            ),
            Some(ch_ewf_grpc::psc::NotificationPsc::LegalPerson(c)) => Ok(
                proto::psc::PSCNotificationType::LegalPerson(proto::psc::PSCLegalPerson::try_from(c)?),
            ),
            Some(ch_ewf_grpc::psc::NotificationPsc::Individual(c)) => Ok(
                proto::psc::PSCNotificationType::Individual(Box::new(proto::psc::PSCIndividual::try_from(c)?)),
            ),
            None => invalid_argument("PSC entity number"),
        }
    }
}

impl proto::company_incorporation::PSCNotificationType {
    /// Why the notification `value` is refused, if it is: it names no
    /// entity, the entity it names is refused, or it names an individual who
    /// has not consented.
    pub open spec fn rejection(value: ch_ewf_grpc::psc::Notification) -> Option<Seq<char>> {
        match value.psc {
            Some(ch_ewf_grpc::psc::NotificationPsc::Corporate(c)) => proto::psc::PSCCorporateEntity::rejection(c),
            Some(ch_ewf_grpc::psc::NotificationPsc::LegalPerson(c)) => proto::psc::PSCLegalPerson::rejection(c),
            Some(ch_ewf_grpc::psc::NotificationPsc::Individual(c)) => unless(
                c.consent_statement,
                "PSC consent required"@,
            ).otherwise(proto::psc::PSCIndividual::<proto::base_types::PersonType2>::rejection(c)),
            None => Some("PSC entity number"@),
        }
    }

    /// Whether `self` is the notification `value` as it goes on the wire.
    pub open spec fn is_accepted(self, value: ch_ewf_grpc::psc::Notification) -> bool {
        match value.psc {
            Some(ch_ewf_grpc::psc::NotificationPsc::Corporate(c)) => self matches proto::company_incorporation::PSCNotificationType::Corporate(
                v,
            ) && v.is_accepted(c),
            Some(ch_ewf_grpc::psc::NotificationPsc::LegalPerson(c)) => self matches proto::company_incorporation::PSCNotificationType::LegalPerson(
                v,
            ) && v.is_accepted(c),
            Some(ch_ewf_grpc::psc::NotificationPsc::Individual(c)) => self matches proto::company_incorporation::PSCNotificationType::Individual(
                v,
            ) && (*v).individual.is_accepted(c) && (*v).consent_statement,
            None => false,
        }
    }

    pub fn try_from(value: ch_ewf_grpc::psc::Notification) -> (r: Result<Self, ServiceError>)
        ensures
            match Self::rejection(value) {
                Some(message) => rejected(r, message),
                None => r matches Ok(v) && v.is_accepted(value),
            },
    {
        match value.psc {
            Some(ch_ewf_grpc::psc::NotificationPsc::Corporate(c)) => Ok(
                proto::company_incorporation::PSCNotificationType::Corporate(
                    proto::psc::PSCCorporateEntity::try_from(c)?,
                ),
            ),
            Some(ch_ewf_grpc::psc::NotificationPsc::LegalPerson(c)) => Ok(
                proto::company_incorporation::PSCNotificationType::LegalPerson(
                    proto::psc::PSCLegalPerson::try_from(c)?,
                ),
            ),
            Some(ch_ewf_grpc::psc::NotificationPsc::Individual(c)) => {
                if !c.consent_statement {
                    return invalid_argument("PSC consent required");
                }
                Ok(
                    proto::company_incorporation::PSCNotificationType::Individual(
                        Box::new(
                            proto::company_incorporation::PSCIndividual {
                                individual: proto::psc::PSCIndividual::try_from(c)?,
                                consent_statement: true,
                            },
                        ),
                    ),
                )
            },
            None => invalid_argument("PSC entity number"),
        }
    }
}

impl proto::psc::PSCNatureOfControls {
    /// Why the natures of control `value` are refused, if they are: none
    /// are given, or one of them is not named.
    pub open spec fn rejection(value: ch_ewf_grpc::psc::NatureOfControls) -> Option<Seq<char>> {
        match value.nature_of_controls {
            Some(ch_ewf_grpc::psc::NatureOfControlsValue::CompanyNatureOfControls(c)) => unless(
                all_named(c.nature_of_controls@),
                "Invalid nature of control"@,
            ),
            Some(ch_ewf_grpc::psc::NatureOfControlsValue::LlpNatureOfControls(c)) => unless(
                all_named(c.nature_of_controls@),
                "Invalid nature of control"@,
            ),
            None => Some("Nature of controls required"@),
        }
    }

    /// Whether `self` holds the natures of control `value`, in order.
    pub open spec fn is_accepted(self, value: ch_ewf_grpc::psc::NatureOfControls) -> bool {
        match value.nature_of_controls {
            Some(ch_ewf_grpc::psc::NatureOfControlsValue::CompanyNatureOfControls(c)) => self matches proto::psc::PSCNatureOfControls::NatureOfControls(
                v,
            ) && are_named(v.nature_of_control@, c.nature_of_controls@),
            Some(ch_ewf_grpc::psc::NatureOfControlsValue::LlpNatureOfControls(c)) => self matches proto::psc::PSCNatureOfControls::LLPNatureOfControls(
                v,
            ) && are_named(v.nature_of_control@, c.nature_of_controls@),
            None => false,
        }
    }

    pub fn try_from(value: ch_ewf_grpc::psc::NatureOfControls) -> (r: Result<Self, ServiceError>)
        ensures
            match Self::rejection(value) {
                Some(message) => rejected(r, message),
                None => r matches Ok(v) && v.is_accepted(value),
            },
    {
        match value.nature_of_controls {
            Some(ch_ewf_grpc::psc::NatureOfControlsValue::CompanyNatureOfControls(c)) => Ok(
                proto::psc::PSCNatureOfControls::NatureOfControls(
                    proto::psc::NatureOfControls {
                        nature_of_control: named(c.nature_of_controls, "Invalid nature of control")?,
                    },
                ),
            ),
            Some(ch_ewf_grpc::psc::NatureOfControlsValue::LlpNatureOfControls(c)) => Ok(
                proto::psc::PSCNatureOfControls::LLPNatureOfControls(
                    proto::psc::LLPNatureOfControls {
                        nature_of_control: named(c.nature_of_controls, "Invalid nature of control")?,
                    },
                ),
            ),
            None => invalid_argument("Nature of controls required"),
        }
    }
}

impl proto::psc::PSCLinkedStatementEntity {
    /// Why the entity of a linked statement is refused, if it is.
    pub open spec fn rejection(psc: Option<ch_ewf_grpc::psc::LinkedStatementPsc>) -> Option<Seq<char>> {
        match psc {
            Some(ch_ewf_grpc::psc::LinkedStatementPsc::Individual(c)) => proto::psc::PSCIdentification::rejection(c),
            Some(ch_ewf_grpc::psc::LinkedStatementPsc::CorporateName(c)) => unless(
                text_ok(c@, 160),
                "Invalid corporate name"@,
            ),
            Some(ch_ewf_grpc::psc::LinkedStatementPsc::LegalPersonName(c)) => unless(
                text_ok(c@, 160),
                "Invalid legal person name"@,
            ),
            Some(ch_ewf_grpc::psc::LinkedStatementPsc::SuperSecureIndividual(_)) => Some(
                "Cannot file for a super secure individual"@,
            ),
            None => Some("Linked statement entity required"@),
        }
    }

    /// Whether `self` is the entity `psc` as it goes on the wire.
    pub open spec fn is_accepted(self, psc: Option<ch_ewf_grpc::psc::LinkedStatementPsc>) -> bool {
        match psc {
            Some(ch_ewf_grpc::psc::LinkedStatementPsc::Individual(c)) => self matches proto::psc::PSCLinkedStatementEntity::Individual(
                v,
            ) && v.is_accepted(c),
            Some(ch_ewf_grpc::psc::LinkedStatementPsc::CorporateName(c)) => self == proto::psc::PSCLinkedStatementEntity::Corporate(
                proto::psc::LinkedStatementCorporate { corporate_name: c },
            ),
            Some(ch_ewf_grpc::psc::LinkedStatementPsc::LegalPersonName(c)) => self == proto::psc::PSCLinkedStatementEntity::LegalPerson(
                proto::psc::LinkedStatementLegalPerson { legal_person_name: c },
            ),
            _ => false,
        }
    }

    pub fn try_from(psc: Option<ch_ewf_grpc::psc::LinkedStatementPsc>) -> (r: Result<Self, ServiceError>)
        ensures
            match Self::rejection(psc) {
                Some(message) => rejected(r, message),
                None => r matches Ok(v) && v.is_accepted(psc),
            },
    {
        match psc {
            Some(ch_ewf_grpc::psc::LinkedStatementPsc::Individual(c)) => Ok(
                proto::psc::PSCLinkedStatementEntity::Individual(proto::psc::PSCIdentification::try_from(c)?),
            ),
            Some(ch_ewf_grpc::psc::LinkedStatementPsc::CorporateName(c)) => {
                if !required_text(c.as_str(), 160) {
                    return invalid_argument("Invalid corporate name");
                }
                Ok(
                    proto::psc::PSCLinkedStatementEntity::Corporate(
                        proto::psc::LinkedStatementCorporate { corporate_name: c },
                    ),
                )
            },
            Some(ch_ewf_grpc::psc::LinkedStatementPsc::LegalPersonName(c)) => {
                if !required_text(c.as_str(), 160) {
                    return invalid_argument("Invalid legal person name");
                }
                Ok(
                    proto::psc::PSCLinkedStatementEntity::LegalPerson(
                        proto::psc::LinkedStatementLegalPerson { legal_person_name: c },
                    ),
                )
            },
            Some(ch_ewf_grpc::psc::LinkedStatementPsc::SuperSecureIndividual(_)) => invalid_argument(
                "Cannot file for a super secure individual",
            ),
            None => invalid_argument("Linked statement entity required"),
        }
    }
}

impl proto::psc::PSCStatementNotificationType {
    /// Why the statement `value` is refused, if it is: it holds no
    /// statement, the statement is not named, or the entity of a linked
    /// statement is refused.
    pub open spec fn rejection(value: ch_ewf_grpc::psc::StatementNotification) -> Option<Seq<char>> {
        match value.notification {
            Some(ch_ewf_grpc::psc::StatementNotificationValue::CompanyLevelStatement(c)) => unless(
                c is Some,
                "Invalid company level statement"@,
            ),
            Some(ch_ewf_grpc::psc::StatementNotificationValue::PscLevelStatement(c)) => unless(
                c is Some,
                "Invalid PSC level statement"@,
            ),
            Some(ch_ewf_grpc::psc::StatementNotificationValue::LinkedStatement(c)) => unless(
                c.statement is Some,
                "Invalid linked statement"@,
            ).otherwise(proto::psc::PSCLinkedStatementEntity::rejection(c.psc)),
            None => Some("Statement notification required"@),
        }
    }

    /// Whether `self` is the statement `value` as it goes on the wire.
    pub open spec fn is_accepted(self, value: ch_ewf_grpc::psc::StatementNotification) -> bool {
        match value.notification {
            Some(ch_ewf_grpc::psc::StatementNotificationValue::CompanyLevelStatement(c)) => c == Some(
                self->Company_0,
            ) && self is Company,
            Some(ch_ewf_grpc::psc::StatementNotificationValue::PscLevelStatement(c)) => c == Some(self->Psc_0)
                && self is Psc,
            Some(ch_ewf_grpc::psc::StatementNotificationValue::LinkedStatement(c)) => {
                &&& self matches proto::psc::PSCStatementNotificationType::PscLinked(v)
                &&& c.statement == Some(v.statement)
                &&& v.entity.is_accepted(c.psc)
            },
            None => false,
        }
    }

    pub fn try_from(value: ch_ewf_grpc::psc::StatementNotification) -> (r: Result<Self, ServiceError>)
        ensures
            match Self::rejection(value) {
                Some(message) => rejected(r, message),
                None => r matches Ok(v) && v.is_accepted(value),
            },
    {
        match value.notification {
            Some(ch_ewf_grpc::psc::StatementNotificationValue::CompanyLevelStatement(c)) => match c {
                Some(statement) => Ok(proto::psc::PSCStatementNotificationType::Company(statement)),
                None => invalid_argument("Invalid company level statement"),
            },
            Some(ch_ewf_grpc::psc::StatementNotificationValue::PscLevelStatement(c)) => match c {
                Some(statement) => Ok(proto::psc::PSCStatementNotificationType::Psc(statement)),
                None => invalid_argument("Invalid PSC level statement"),
            },
            Some(ch_ewf_grpc::psc::StatementNotificationValue::LinkedStatement(c)) => {
                let statement = match c.statement {
                    Some(statement) => statement,
                    None => {
                        return invalid_argument("Invalid linked statement");
                    },
                };
                let entity = proto::psc::PSCLinkedStatementEntity::try_from(c.psc)?;
                Ok(
                    proto::psc::PSCStatementNotificationType::PscLinked(
                        proto::psc::PSCLinkedStatement { statement, entity },
                    ),
                )
            },
            None => invalid_argument("Statement notification required"),
        }
    }
}

} // verus!
