//! How the parts of a request that describe officers are checked and turned
//! into what goes on the wire.

use vstd::prelude::*;
use vstd::string::*;
use crate::ch_ewf_grpc;
use crate::error::ServiceError;
use crate::proto;
use crate::rules::{
    first_rejection, invalid_argument, non_empty, optional, optional_ok, optional_text, rejected,
    required_text, text_ok, unless, Checks,
};

verus! {

impl proto::officer_change::ServiceAddressChange {
    /// Why the change of service address `value` is refused, if it is: for the first check, in order, that it fails.
    pub open spec fn rejection(value: ch_ewf_grpc::officer_change::ServiceAddress) -> Option<Seq<char>> {
        match value.address {
            Some(address) => proto::base_types::ServiceAddressType::rejection(address),
            None => Some("Service address value required"@),
        }
    }

    /// Whether `self` is the change of service address `value` as it goes on the wire.
    pub open spec fn is_accepted(self, value: ch_ewf_grpc::officer_change::ServiceAddress) -> bool {
        &&& value.address matches Some(address)
        &&& self.address.is_accepted(address)
        &&& self.residential_address_unchanged == value.residential_address_unchanged
    }

    pub fn try_from(value: ch_ewf_grpc::officer_change::ServiceAddress) -> (r: Result<Self, ServiceError>)
        ensures
            match Self::rejection(value) {
                Some(message) => rejected(r, message),
                None => r matches Ok(v) && v.is_accepted(value),
            },
    {
        let address = match value.address {
            Some(address) => proto::base_types::ServiceAddressType::try_from(address)?,
            None => {
                return invalid_argument("Service address value required");
            },
        };
        Ok(
            proto::officer_change::ServiceAddressChange {
                address,
                residential_address_unchanged: value.residential_address_unchanged,
            },
        )
    }
}

impl proto::base_types::CorporateOfficerAppointmentType {
    /// Why the corporate officer `value` is refused, if it is: for the first check, in order, that it fails.
    pub open spec fn rejection(
        value: ch_ewf_grpc::officer_appointment::CorporateOfficerAppointment,
    ) -> Option<Seq<char>> {
        (match value.person {
            Some(name) => proto::base_types::Person::rejection(name),
            None => None,
        })
            .otherwise(
                match value.corporate {
                    Some(corporate_officer) => proto::base_types::CorporateOfficerType::rejection(corporate_officer),
                    None => Some("Corporate officer required"@),
                },
            )
    }

    /// Whether `self` is the corporate officer `value` as it goes on the wire.
    pub open spec fn is_accepted(self, value: ch_ewf_grpc::officer_appointment::CorporateOfficerAppointment) -> bool {
        &&& match value.person {
            Some(name) => self.name matches Some(got_name) && got_name.is_accepted(name),
            None => self.name is None,
        }
        &&& value.corporate matches Some(corporate_officer)
        &&& self.corporate_officer.is_accepted(corporate_officer)
    }

    pub fn try_from(
        value: ch_ewf_grpc::officer_appointment::CorporateOfficerAppointment,
    ) -> (r: Result<Self, ServiceError>)
        ensures
            match Self::rejection(value) {
                Some(message) => rejected(r, message),
                None => r matches Ok(v) && v.is_accepted(value),
            },
    {
        let name = match value.person {
            Some(name) => Some(proto::base_types::Person::try_from(name)?),
            None => None,
        };
        let corporate_officer = match value.corporate {
            Some(corporate_officer) => proto::base_types::CorporateOfficerType::try_from(corporate_officer)?,
            None => {
                return invalid_argument("Corporate officer required");
            },
        };
        Ok(
            proto::base_types::CorporateOfficerAppointmentType {
                name,
                corporate_officer,
            },
        )
    }
}

impl proto::officer_change::CorporateChangeDetails {
    /// Why the change `value` is refused, if it is: for the first check, in order, that it fails.
    pub open spec fn rejection(value: ch_ewf_grpc::officer_change::CorporateChange) -> Option<Seq<char>> {
        (match value.new_corporate_name {
            Some(text) => unless(text_ok(text@, 160), "Invalid new corporate name"@),
            None => None,
        })
            .otherwise(
                match value.new_address {
                    Some(address) => proto::base_types::CompanyAddress::rejection(address),
                    None => None,
                },
            )
            .otherwise(
                match value.new_company_identification {
                    Some(company_identification) => {
                        proto::base_types::CompanyIdentification::rejection(company_identification)
                    },
                    None => None,
                },
            )
    }

    /// Whether `self` is the change `value` as it goes on the wire.
    pub open spec fn is_accepted(self, value: ch_ewf_grpc::officer_change::CorporateChange) -> bool {
        &&& self.corporate_name == value.new_corporate_name
        &&& match value.new_address {
            Some(address) => self.address matches Some(got_address) && got_address.is_accepted(address),
            None => self.address is None,
        }
        &&& match value.new_company_identification {
            Some(company_identification) => {
                self.company_identification matches Some(got_company_identification) && got_company_identification.is_accepted(company_identification)
            },
            None => self.company_identification is None,
        }
    }

    pub fn try_from(value: ch_ewf_grpc::officer_change::CorporateChange) -> (r: Result<Self, ServiceError>)
        ensures
            match Self::rejection(value) {
                Some(message) => rejected(r, message),
                None => r matches Ok(v) && v.is_accepted(value),
            },
    {
        match &value.new_corporate_name {
            Some(text) => {
                if !required_text(text.as_str(), 160) {
                    return invalid_argument("Invalid new corporate name");
                }
            },
            None => {},
        }
        let address = match value.new_address {
            Some(address) => Some(proto::base_types::CompanyAddress::try_from(address)?),
            None => None,
        };
        let company_identification = match value.new_company_identification {
            Some(company_identification) => {
                Some(proto::base_types::CompanyIdentification::try_from(company_identification)?)
            },
            None => None,
        };
        Ok(
            proto::officer_change::CorporateChangeDetails {
                corporate_name: value.new_corporate_name,
                address,
                company_identification,
            },
        )
    }
}

impl proto::base_types::DirectorPersonType<proto::base_types::PersonType2> {
    /// Why the director `p` is refused, if it is: for the first check, in order, that it fails.
    pub open spec fn rejection(p: ch_ewf_grpc::base_types::DirectorPerson) -> Option<Seq<char>> {
        unless(text_ok(p.nationality@, 50), "Invalid nationality"@)
            .otherwise(unless(text_ok(p.occupation@, 50), "Invalid occupation"@))
            .otherwise(
                match p.person {
                    Some(person) => proto::base_types::PersonType2::rejection(person),
                    None => Some("Person name required"@),
                },
            )
            .otherwise(
                match p.service_address {
                    Some(service_address) => proto::base_types::ServiceAddressType::rejection(service_address),
                    None => Some("Service address required"@),
                },
            )
            .otherwise(unless(p.date_of_birth is Some, "Date of birth required"@))
            .otherwise(unless(optional_ok(p.country_of_residence@, 50), "Invalid country of residence"@))
            .otherwise(first_rejection(p.previous_names@, proto::base_types::PreviousNameType::rejection_fn()))
            .otherwise(
                match p.residential_address {
                    Some(residential_address) => {
                        proto::base_types::ResidentialAddressType::rejection(residential_address)
                    },
                    None => Some("Residential address required"@),
                },
            )
    }

    /// Whether `self` is the director `p` as it goes on the wire.
    pub open spec fn is_accepted(self, p: ch_ewf_grpc::base_types::DirectorPerson) -> bool {
        &&& self.nationality == p.nationality
        &&& self.occupation == p.occupation
        &&& p.person matches Some(person)
        &&& self.person.is_accepted(person)
        &&& p.service_address matches Some(service_address)
        &&& self.service_address.is_accepted(service_address)
        &&& p.date_of_birth == Some(self.date_of_birth)
        &&& self.country_of_residence == optional(p.country_of_residence)
        &&& proto::base_types::PreviousNameType::are_accepted(self.previous_names@, p.previous_names@)
        &&& p.residential_address matches Some(residential_address)
        &&& self.residential_address.is_accepted(residential_address)
    }

    pub fn try_from(p: ch_ewf_grpc::base_types::DirectorPerson) -> (r: Result<Self, ServiceError>)
        ensures
            match Self::rejection(p) {
                Some(message) => rejected(r, message),
                None => r matches Ok(v) && v.is_accepted(p),
            },
    {
        if !required_text(p.nationality.as_str(), 50) {
            return invalid_argument("Invalid nationality");
        }
        if !required_text(p.occupation.as_str(), 50) {
            return invalid_argument("Invalid occupation");
        }
        let person = match p.person {
            Some(person) => proto::base_types::PersonType2::try_from(person)?,
            None => {
                return invalid_argument("Person name required");
            },
        };
        let service_address = match p.service_address {
            Some(service_address) => proto::base_types::ServiceAddressType::try_from(service_address)?,
            None => {
                return invalid_argument("Service address required");
            },
        };
        let date_of_birth = match p.date_of_birth {
            Some(d) => d,
            None => {
                return invalid_argument("Date of birth required");
            },
        };
        if !optional_text(p.country_of_residence.as_str(), 50) {
            return invalid_argument("Invalid country of residence");
        }
        let previous_names = proto::base_types::PreviousNameType::try_from_all(p.previous_names)?;
        let residential_address = match p.residential_address {
            Some(residential_address) => proto::base_types::ResidentialAddressType::try_from(residential_address)?,
            None => {
                return invalid_argument("Residential address required");
            },
        };
        Ok(
            proto::base_types::DirectorPersonType {
                nationality: p.nationality,
                occupation: p.occupation,
                person,
                service_address,
                date_of_birth,
                country_of_residence: non_empty(p.country_of_residence),
                previous_names,
                residential_address,
            },
        )
    }
}

impl proto::base_types::SecretaryPersonType<proto::base_types::PersonType2> {
    /// Why the secretary `p` is refused, if it is: for the first check, in order, that it fails.
    pub open spec fn rejection(p: ch_ewf_grpc::base_types::SecretaryPerson) -> Option<Seq<char>> {
        (match p.person {
            Some(person) => proto::base_types::PersonType2::rejection(person),
            None => Some("Person name required"@),
        })
            .otherwise(
                match p.service_address {
                    Some(service_address) => proto::base_types::ServiceAddressType::rejection(service_address),
                    None => Some("Service address required"@),
                },
            )
            .otherwise(first_rejection(p.previous_names@, proto::base_types::PreviousNameType::rejection_fn()))
    }

    /// Whether `self` is the secretary `p` as it goes on the wire.
    pub open spec fn is_accepted(self, p: ch_ewf_grpc::base_types::SecretaryPerson) -> bool {
        &&& p.person matches Some(person)
        &&& self.person.is_accepted(person)
        &&& p.service_address matches Some(service_address)
        &&& self.service_address.is_accepted(service_address)
        &&& proto::base_types::PreviousNameType::are_accepted(self.previous_names@, p.previous_names@)
    }

    pub fn try_from(p: ch_ewf_grpc::base_types::SecretaryPerson) -> (r: Result<Self, ServiceError>)
        ensures
            match Self::rejection(p) {
                Some(message) => rejected(r, message),
                None => r matches Ok(v) && v.is_accepted(p),
            },
    {
        let person = match p.person {
            Some(person) => proto::base_types::PersonType2::try_from(person)?,
            None => {
                return invalid_argument("Person name required");
            },
        };
        let service_address = match p.service_address {
            Some(service_address) => proto::base_types::ServiceAddressType::try_from(service_address)?,
            None => {
                return invalid_argument("Service address required");
            },
        };
        let previous_names = proto::base_types::PreviousNameType::try_from_all(p.previous_names)?;
        Ok(
            proto::base_types::SecretaryPersonType {
                person,
                service_address,
                previous_names,
            },
        )
    }
}

impl proto::base_types::MemberPersonType<proto::base_types::PersonType2> {
    /// Why the member `p` is refused, if it is: for the first check, in order, that it fails.
    pub open spec fn rejection(p: ch_ewf_grpc::base_types::MemberPerson) -> Option<Seq<char>> {
        (match p.person {
            Some(person) => proto::base_types::PersonType2::rejection(person),
            None => Some("Person name required"@),
        })
            .otherwise(
                match p.service_address {
                    Some(service_address) => proto::base_types::ServiceAddressType::rejection(service_address),
                    None => Some("Service address required"@),
                },
            )
            .otherwise(unless(p.date_of_birth is Some, "Date of birth required"@))
            .otherwise(unless(optional_ok(p.country_of_residence@, 50), "Invalid country of residence"@))
            .otherwise(first_rejection(p.previous_names@, proto::base_types::PreviousNameType::rejection_fn()))
            .otherwise(
                match p.residential_address {
                    Some(residential_address) => {
                        proto::base_types::ResidentialAddressType::rejection(residential_address)
                    },
                    None => Some("Residential address required"@),
                },
            )
    }

    /// Whether `self` is the member `p` as it goes on the wire.
    pub open spec fn is_accepted(self, p: ch_ewf_grpc::base_types::MemberPerson) -> bool {
        &&& p.person matches Some(person)
        &&& self.person.is_accepted(person)
        &&& p.service_address matches Some(service_address)
        &&& self.service_address.is_accepted(service_address)
        &&& p.date_of_birth == Some(self.date_of_birth)
        &&& self.country_of_residence == optional(p.country_of_residence)
        &&& proto::base_types::PreviousNameType::are_accepted(self.previous_names@, p.previous_names@)
        &&& p.residential_address matches Some(residential_address)
        &&& self.residential_address.is_accepted(residential_address)
    }

    pub fn try_from(p: ch_ewf_grpc::base_types::MemberPerson) -> (r: Result<Self, ServiceError>)
        ensures
            match Self::rejection(p) {
                Some(message) => rejected(r, message),
                None => r matches Ok(v) && v.is_accepted(p),
            },
    {
        let person = match p.person {
            Some(person) => proto::base_types::PersonType2::try_from(person)?,
            None => {
                return invalid_argument("Person name required");
            },
        };
        let service_address = match p.service_address {
            Some(service_address) => proto::base_types::ServiceAddressType::try_from(service_address)?,
            None => {
                return invalid_argument("Service address required");
            },
        };
        let date_of_birth = match p.date_of_birth {
            Some(d) => d,
            None => {
                return invalid_argument("Date of birth required");
            },
        };
        if !optional_text(p.country_of_residence.as_str(), 50) {
            return invalid_argument("Invalid country of residence");
        }
        let previous_names = proto::base_types::PreviousNameType::try_from_all(p.previous_names)?;
        let residential_address = match p.residential_address {
            Some(residential_address) => proto::base_types::ResidentialAddressType::try_from(residential_address)?,
            None => {
                return invalid_argument("Residential address required");
            },
        };
        Ok(
            proto::base_types::MemberPersonType {
                person,
                service_address,
                date_of_birth,
                country_of_residence: non_empty(p.country_of_residence),
                previous_names,
                residential_address,
            },
        )
    }
}

impl proto::base_types::DirectorAppointmentType {
    /// Why the director `o` is refused, if it is: it holds none of its kinds, or the one it holds is refused.
    pub open spec fn rejection(o: ch_ewf_grpc::officer_appointment::Director) -> Option<Seq<char>> {
        match o.director {
            Some(ch_ewf_grpc::officer_appointment::DirectorValue::Person(p)) => {
                proto::base_types::DirectorPersonType::<proto::base_types::PersonType2>::rejection(p)
            },
            Some(ch_ewf_grpc::officer_appointment::DirectorValue::Corporate(c)) => {
                proto::base_types::CorporateOfficerAppointmentType::rejection(c)
            },
            None => Some("Director type required"@),
        }
    }

    /// Whether `self` is the director `o` as it goes on the wire.
    pub open spec fn is_accepted(self, o: ch_ewf_grpc::officer_appointment::Director) -> bool {
        match o.director {
            Some(ch_ewf_grpc::officer_appointment::DirectorValue::Person(p)) => {
                self matches proto::base_types::DirectorAppointmentType::Person(got) && (*got).is_accepted(p)
            },
            Some(ch_ewf_grpc::officer_appointment::DirectorValue::Corporate(c)) => {
                self matches proto::base_types::DirectorAppointmentType::Corporate(got) && (*got).is_accepted(c)
            },
            None => false,
        }
    }

    pub fn try_from(o: ch_ewf_grpc::officer_appointment::Director) -> (r: Result<Self, ServiceError>)
        ensures
            match Self::rejection(o) {
                Some(message) => rejected(r, message),
                None => r matches Ok(v) && v.is_accepted(o),
            },
    {
        match o.director {
            Some(ch_ewf_grpc::officer_appointment::DirectorValue::Person(p)) => {
                Ok(
                    proto::base_types::DirectorAppointmentType::Person(
                        Box::new(proto::base_types::DirectorPersonType::<proto::base_types::PersonType2>::try_from(p)?),
                    ),
                )
            },
            Some(ch_ewf_grpc::officer_appointment::DirectorValue::Corporate(c)) => {
                Ok(
                    proto::base_types::DirectorAppointmentType::Corporate(
                        Box::new(proto::base_types::CorporateOfficerAppointmentType::try_from(c)?),
                    ),
                )
            },
            None => invalid_argument("Director type required"),
        }
    }
}

impl proto::base_types::SecretaryAppointmentType {
    /// Why the secretary `o` is refused, if it is: it holds none of its kinds, or the one it holds is refused.
    pub open spec fn rejection(o: ch_ewf_grpc::officer_appointment::Secretary) -> Option<Seq<char>> {
        match o.secretary {
            Some(ch_ewf_grpc::officer_appointment::SecretaryValue::Person(p)) => {
                proto::base_types::SecretaryPersonType::<proto::base_types::PersonType2>::rejection(p)
            },
            Some(ch_ewf_grpc::officer_appointment::SecretaryValue::Corporate(c)) => {
                proto::base_types::CorporateOfficerAppointmentType::rejection(c)
            },
            None => Some("Secretary type required"@),
        }
    }

    /// Whether `self` is the secretary `o` as it goes on the wire.
    pub open spec fn is_accepted(self, o: ch_ewf_grpc::officer_appointment::Secretary) -> bool {
        match o.secretary {
            Some(ch_ewf_grpc::officer_appointment::SecretaryValue::Person(p)) => {
                self matches proto::base_types::SecretaryAppointmentType::Person(got) && got.is_accepted(p)
            },
            Some(ch_ewf_grpc::officer_appointment::SecretaryValue::Corporate(c)) => {
                self matches proto::base_types::SecretaryAppointmentType::Corporate(got) && (*got).is_accepted(c)
            },
            None => false,
        }
    }

    pub fn try_from(o: ch_ewf_grpc::officer_appointment::Secretary) -> (r: Result<Self, ServiceError>)
        ensures
            match Self::rejection(o) {
                Some(message) => rejected(r, message),
                None => r matches Ok(v) && v.is_accepted(o),
            },
    {
        match o.secretary {
            Some(ch_ewf_grpc::officer_appointment::SecretaryValue::Person(p)) => {
                Ok(
                    proto::base_types::SecretaryAppointmentType::Person(
                        proto::base_types::SecretaryPersonType::<proto::base_types::PersonType2>::try_from(p)?,
                    ),
                )
            },
            Some(ch_ewf_grpc::officer_appointment::SecretaryValue::Corporate(c)) => {
                Ok(
                    proto::base_types::SecretaryAppointmentType::Corporate(
                        Box::new(proto::base_types::CorporateOfficerAppointmentType::try_from(c)?),
                    ),
                )
            },
            None => invalid_argument("Secretary type required"),
        }
    }
}

impl proto::base_types::MemberAppointmentTypeInner {
    /// Why the member `member` is refused, if it is: it holds none of its kinds, or the one it holds is refused.
    pub open spec fn rejection(member: Option<ch_ewf_grpc::officer_appointment::MemberValue>) -> Option<Seq<char>> {
        match member {
            Some(ch_ewf_grpc::officer_appointment::MemberValue::Person(p)) => {
                proto::base_types::MemberPersonType::<proto::base_types::PersonType2>::rejection(p)
            },
            Some(ch_ewf_grpc::officer_appointment::MemberValue::Corporate(c)) => {
                proto::base_types::CorporateOfficerAppointmentType::rejection(c)
            },
            None => Some("Member type required"@),
        }
    }

    /// Whether `self` is the member `member` as it goes on the wire.
    pub open spec fn is_accepted(self, member: Option<ch_ewf_grpc::officer_appointment::MemberValue>) -> bool {
        match member {
            Some(ch_ewf_grpc::officer_appointment::MemberValue::Person(p)) => {
                self matches proto::base_types::MemberAppointmentTypeInner::Person(got) && (*got).is_accepted(p)
            },
            Some(ch_ewf_grpc::officer_appointment::MemberValue::Corporate(c)) => {
                self matches proto::base_types::MemberAppointmentTypeInner::Corporate(got) && (*got).is_accepted(c)
            },
            None => false,
        }
    }

    pub fn try_from(member: Option<ch_ewf_grpc::officer_appointment::MemberValue>) -> (r: Result<Self, ServiceError>)
        ensures
            match Self::rejection(member) {
                Some(message) => rejected(r, message),
                None => r matches Ok(v) && v.is_accepted(member),
            },
    {
        match member {
            Some(ch_ewf_grpc::officer_appointment::MemberValue::Person(p)) => {
                Ok(
                    proto::base_types::MemberAppointmentTypeInner::Person(
                        Box::new(proto::base_types::MemberPersonType::<proto::base_types::PersonType2>::try_from(p)?),
                    ),
                )
            },
            Some(ch_ewf_grpc::officer_appointment::MemberValue::Corporate(c)) => {
                Ok(
                    proto::base_types::MemberAppointmentTypeInner::Corporate(
                        Box::new(proto::base_types::CorporateOfficerAppointmentType::try_from(c)?),
                    ),
                )
            },
            None => invalid_argument("Member type required"),
        }
    }
}

impl proto::base_types::MemberAppointmentType {
    /// Why the member `o` is refused, if it is: for the first check, in order, that it fails.
    pub open spec fn rejection(o: ch_ewf_grpc::officer_appointment::Member) -> Option<Seq<char>> {
        proto::base_types::MemberAppointmentTypeInner::rejection(o.member)
    }

    /// Whether `self` is the member `o` as it goes on the wire.
    pub open spec fn is_accepted(self, o: ch_ewf_grpc::officer_appointment::Member) -> bool {
        &&& self.designated == o.designated
        &&& self.inner.is_accepted(o.member)
    }

    pub fn try_from(o: ch_ewf_grpc::officer_appointment::Member) -> (r: Result<Self, ServiceError>)
        ensures
            match Self::rejection(o) {
                Some(message) => rejected(r, message),
                None => r matches Ok(v) && v.is_accepted(o),
            },
    {
        let inner = proto::base_types::MemberAppointmentTypeInner::try_from(o.member)?;
        Ok(
            proto::base_types::MemberAppointmentType {
                designated: o.designated,
                inner,
            },
        )
    }
}

} // verus!
