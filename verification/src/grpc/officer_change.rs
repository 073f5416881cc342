//! The form about a change in the details of an officer: how it is
//! checked and put together.

use vstd::prelude::*;
use vstd::string::*;
use crate::ch_ewf_grpc;
use crate::error::ServiceError;
use crate::grpc::submission::FormRequest;
use crate::grpc::CHFillingService;
use crate::proto;
use crate::rules::{invalid_argument, rejected, required_text, text_ok, unless, Checks};

verus! {

impl proto::officer_change::DirectorPersonChange {
    /// Why the change to the director `p` is refused, if it is: for the first check, in
    /// order, that it fails.
    pub open spec fn rejection(p: ch_ewf_grpc::officer_change::DirectorPersonChange) -> Option<Seq<char>> {
        (match p.person {
            Some(person) => proto::base_types::PersonType::rejection(person),
            None => Some("Person name required"@),
        })
            .otherwise(unless(p.date_of_birth is Some, "Date of birth required"@))
            .otherwise(
                match p.new_name {
                    Some(name) => proto::base_types::PersonType::rejection(name),
                    None => None,
                },
            )
            .otherwise(
                match p.new_service_address {
                    Some(service_address) => proto::officer_change::ServiceAddressChange::rejection(service_address),
                    None => None,
                },
            )
            .otherwise(
                match p.new_residential_address {
                    Some(residential_address) => {
                        proto::base_types::ResidentialAddressType::rejection(residential_address)
                    },
                    None => None,
                },
            )
            .otherwise(
                match p.new_nationality {
                    Some(text) => unless(text_ok(text@, 50), "Invalid nationality"@),
                    None => None,
                },
            )
            .otherwise(
                match p.new_country_of_residence {
                    Some(text) => unless(text_ok(text@, 50), "Invalid country of residence"@),
                    None => None,
                },
            )
            .otherwise(
                match p.new_occupation {
                    Some(text) => unless(text_ok(text@, 50), "Invalid occupation"@),
                    None => None,
                },
            )
    }

    /// Whether `self` is the change to the director `p` as it goes on the wire.
    pub open spec fn is_accepted(self, p: ch_ewf_grpc::officer_change::DirectorPersonChange) -> bool {
        &&& p.person matches Some(person)
        &&& self.person.is_accepted(person)
        &&& p.date_of_birth == Some(self.dob)
        &&& self.change is Some
        &&& match p.new_name {
            Some(name) => self.change->0.person_change.name matches Some(got_name) && got_name.is_accepted(name),
            None => self.change->0.person_change.name is None,
        }
        &&& match p.new_service_address {
            Some(service_address) => {
                self.change->0.person_change.service_address matches Some(got_service_address) && got_service_address.is_accepted(service_address)
            },
            None => self.change->0.person_change.service_address is None,
        }
        &&& match p.new_residential_address {
            Some(residential_address) => {
                self.change->0.residential_address matches Some(got_residential_address) && got_residential_address.is_accepted(residential_address)
            },
            None => self.change->0.residential_address is None,
        }
        &&& self.change->0.nationality == p.new_nationality
        &&& self.change->0.country_of_residence == p.new_country_of_residence
        &&& self.change->0.occupation == p.new_occupation
    }

    pub fn try_from(p: ch_ewf_grpc::officer_change::DirectorPersonChange) -> (r: Result<Self, ServiceError>)
        ensures
            match Self::rejection(p) {
                Some(message) => rejected(r, message),
                None => r matches Ok(v) && v.is_accepted(p),
            },
    {
        let person = match p.person {
            Some(person) => proto::base_types::PersonType::try_from(person)?,
            None => {
                return invalid_argument("Person name required");
            },
        };
        let dob = match p.date_of_birth {
            Some(d) => d,
            None => {
                return invalid_argument("Date of birth required");
            },
        };
        let name = match p.new_name {
            Some(name) => Some(proto::base_types::PersonType::try_from(name)?),
            None => None,
        };
        let service_address = match p.new_service_address {
            Some(service_address) => Some(proto::officer_change::ServiceAddressChange::try_from(service_address)?),
            None => None,
        };
        let residential_address = match p.new_residential_address {
            Some(residential_address) => {
                Some(proto::base_types::ResidentialAddressType::try_from(residential_address)?)
            },
            None => None,
        };
        match &p.new_nationality {
            Some(text) => {
                if !required_text(text.as_str(), 50) {
                    return invalid_argument("Invalid nationality");
                }
            },
            None => {},
        }
        match &p.new_country_of_residence {
            Some(text) => {
                if !required_text(text.as_str(), 50) {
                    return invalid_argument("Invalid country of residence");
                }
            },
            None => {},
        }
        match &p.new_occupation {
            Some(text) => {
                if !required_text(text.as_str(), 50) {
                    return invalid_argument("Invalid occupation");
                }
            },
            None => {},
        }
        Ok(
            proto::officer_change::DirectorPersonChange {
                person,
                dob,
                change: Some(
                    proto::officer_change::DirectorPersonChangeDetails {
                        person_change: proto::officer_change::PersonChangeDetails {
                            name,
                            service_address,
                        },
                        residential_address,
                        nationality: p.new_nationality,
                        country_of_residence: p.new_country_of_residence,
                        occupation: p.new_occupation,
                    },
                ),
            },
        )
    }
}

impl proto::officer_change::CorporateChangeType {
    /// Why the change to the corporate officer `c` is refused, if it is: for the first
    /// check, in order, that it fails.
    pub open spec fn rejection(c: ch_ewf_grpc::officer_change::CorporateChange) -> Option<Seq<char>> {
        unless(text_ok(c.corporate_name@, 160), "Invalid corporate name"@)
            .otherwise(proto::officer_change::CorporateChangeDetails::rejection(c))
    }

    /// Whether `self` is the change to the corporate officer `c` as it goes on the wire.
    pub open spec fn is_accepted(self, c: ch_ewf_grpc::officer_change::CorporateChange) -> bool {
        &&& self.corporate_name == c.corporate_name
        &&& self.change matches Some(change)
        &&& change.is_accepted(c)
    }

    pub fn try_from(c: ch_ewf_grpc::officer_change::CorporateChange) -> (r: Result<Self, ServiceError>)
        ensures
            match Self::rejection(c) {
                Some(message) => rejected(r, message),
                None => r matches Ok(v) && v.is_accepted(c),
            },
    {
        if !required_text(c.corporate_name.as_str(), 160) {
            return invalid_argument("Invalid corporate name");
        }
        let corporate_name = c.corporate_name.clone();
        let change = proto::officer_change::CorporateChangeDetails::try_from(c)?;
        Ok(
            proto::officer_change::CorporateChangeType {
                corporate_name,
                change: Some(change),
            },
        )
    }
}

impl proto::officer_change::DirectorChange {
    /// Why the director `o` is refused, if it is: it holds none of its kinds, or the one it holds is refused.
    pub open spec fn rejection(o: ch_ewf_grpc::officer_change::Director) -> Option<Seq<char>> {
        match o.director {
            Some(ch_ewf_grpc::officer_change::DirectorValue::Person(p)) => {
                proto::officer_change::DirectorPersonChange::rejection(p)
            },
            Some(ch_ewf_grpc::officer_change::DirectorValue::Corporate(c)) => {
                proto::officer_change::CorporateChangeType::rejection(c)
            },
            None => Some("Director type required"@),
        }
    }

    /// Whether `self` is the director `o` as it goes on the wire.
    pub open spec fn is_accepted(self, o: ch_ewf_grpc::officer_change::Director) -> bool {
        match o.director {
            Some(ch_ewf_grpc::officer_change::DirectorValue::Person(p)) => {
                self matches proto::officer_change::DirectorChange::Person(got) && (*got).is_accepted(p)
            },
            Some(ch_ewf_grpc::officer_change::DirectorValue::Corporate(c)) => {
                self matches proto::officer_change::DirectorChange::Corporate(got) && (*got).is_accepted(c)
            },
            None => false,
        }
    }

    pub fn try_from(o: ch_ewf_grpc::officer_change::Director) -> (r: Result<Self, ServiceError>)
        ensures
            match Self::rejection(o) {
                Some(message) => rejected(r, message),
                None => r matches Ok(v) && v.is_accepted(o),
            },
    {
        match o.director {
            Some(ch_ewf_grpc::officer_change::DirectorValue::Person(p)) => {
                Ok(
                    proto::officer_change::DirectorChange::Person(
                        Box::new(proto::officer_change::DirectorPersonChange::try_from(p)?),
                    ),
                )
            },
            Some(ch_ewf_grpc::officer_change::DirectorValue::Corporate(c)) => {
                Ok(
                    proto::officer_change::DirectorChange::Corporate(
                        Box::new(proto::officer_change::CorporateChangeType::try_from(c)?),
                    ),
                )
            },
            None => invalid_argument("Director type required"),
        }
    }
}

impl proto::officer_change::SecretaryPersonChange {
    /// Why the change to the secretary `p` is refused, if it is: for the first check, in
    /// order, that it fails.
    pub open spec fn rejection(p: ch_ewf_grpc::officer_change::SecretaryPersonChange) -> Option<Seq<char>> {
        (match p.person {
            Some(person) => proto::base_types::PersonType::rejection(person),
            None => Some("Person name required"@),
        })
            .otherwise(
                match p.new_name {
                    Some(name) => proto::base_types::PersonType::rejection(name),
                    None => None,
                },
            )
            .otherwise(
                match p.new_service_address {
                    Some(a) => proto::base_types::ServiceAddressType::rejection(a),
                    None => None,
                },
            )
    }

    /// Whether `self` is the change to the secretary `p` as it goes on the wire.
    pub open spec fn is_accepted(self, p: ch_ewf_grpc::officer_change::SecretaryPersonChange) -> bool {
        &&& p.person matches Some(person)
        &&& self.person.is_accepted(person)
        &&& self.change is Some
        &&& match p.new_name {
            Some(name) => self.change->0.name matches Some(got_name) && got_name.is_accepted(name),
            None => self.change->0.name is None,
        }
        &&& match p.new_service_address {
            Some(a) => self.change->0.service_address matches Some(got) && got.address.is_accepted(a)
                && !got.residential_address_unchanged,
            None => self.change->0.service_address is None,
        }
    }

    pub fn try_from(p: ch_ewf_grpc::officer_change::SecretaryPersonChange) -> (r: Result<Self, ServiceError>)
        ensures
            match Self::rejection(p) {
                Some(message) => rejected(r, message),
                None => r matches Ok(v) && v.is_accepted(p),
            },
    {
        let person = match p.person {
            Some(person) => proto::base_types::PersonType::try_from(person)?,
            None => {
                return invalid_argument("Person name required");
            },
        };
        let name = match p.new_name {
            Some(name) => Some(proto::base_types::PersonType::try_from(name)?),
            None => None,
        };
        let service_address = match p.new_service_address {
            Some(a) => Some(
                proto::officer_change::ServiceAddressChange {
                    address: proto::base_types::ServiceAddressType::try_from(a)?,
                    residential_address_unchanged: false,
                },
            ),
            None => None,
        };
        Ok(
            proto::officer_change::SecretaryPersonChange {
                person,
                change: Some(
                    proto::officer_change::PersonChangeDetails {
                        name,
                        service_address,
                    },
                ),
            },
        )
    }
}

impl proto::officer_change::SecretaryChange {
    /// Why the secretary `o` is refused, if it is: it holds none of its kinds, or the one it holds is refused.
    pub open spec fn rejection(o: ch_ewf_grpc::officer_change::Secretary) -> Option<Seq<char>> {
        match o.secretary {
            Some(ch_ewf_grpc::officer_change::SecretaryValue::Person(p)) => {
                proto::officer_change::SecretaryPersonChange::rejection(p)
            },
            Some(ch_ewf_grpc::officer_change::SecretaryValue::Corporate(c)) => {
                proto::officer_change::CorporateChangeType::rejection(c)
            },
            None => Some("Secretary type required"@),
        }
    }

    /// Whether `self` is the secretary `o` as it goes on the wire.
    pub open spec fn is_accepted(self, o: ch_ewf_grpc::officer_change::Secretary) -> bool {
        match o.secretary {
            Some(ch_ewf_grpc::officer_change::SecretaryValue::Person(p)) => {
                self matches proto::officer_change::SecretaryChange::Person(got) && got.is_accepted(p)
            },
            Some(ch_ewf_grpc::officer_change::SecretaryValue::Corporate(c)) => {
                self matches proto::officer_change::SecretaryChange::Corporate(got) && got.is_accepted(c)
            },
            None => false,
        }
    }

    pub fn try_from(o: ch_ewf_grpc::officer_change::Secretary) -> (r: Result<Self, ServiceError>)
        ensures
            match Self::rejection(o) {
                Some(message) => rejected(r, message),
                None => r matches Ok(v) && v.is_accepted(o),
            },
    {
        match o.secretary {
            Some(ch_ewf_grpc::officer_change::SecretaryValue::Person(p)) => {
                Ok(
                    proto::officer_change::SecretaryChange::Person(
                        proto::officer_change::SecretaryPersonChange::try_from(p)?,
                    ),
                )
            },
            Some(ch_ewf_grpc::officer_change::SecretaryValue::Corporate(c)) => {
                Ok(
                    proto::officer_change::SecretaryChange::Corporate(
                        proto::officer_change::CorporateChangeType::try_from(c)?,
                    ),
                )
            },
            None => invalid_argument("Secretary type required"),
        }
    }
}

/// Whether a member is designated, as the wire has it.
pub open spec fn spec_designated(d: Option<ch_ewf_grpc::officer_change::Designated>) -> Option<
    proto::officer_change::MemberDesignated,
> {
    match d {
        Some(d) => Some(
            proto::officer_change::MemberDesignated { designated: d.designated, consent_to_act: d.consent_to_act },
        ),
        None => None,
    }
}

/// Whether a member is designated, as the wire has it.
pub fn designated(d: Option<ch_ewf_grpc::officer_change::Designated>) -> (r: Option<
    proto::officer_change::MemberDesignated,
>)
    ensures
        r == spec_designated(d),
{
    match d {
        Some(d) => Some(
            proto::officer_change::MemberDesignated { designated: d.designated, consent_to_act: d.consent_to_act },
        ),
        None => None,
    }
}

impl proto::officer_change::MemberPersonChange {
    /// Why the change to the member `p` is refused, if it is: for the first check, in order, that it fails.
    pub open spec fn rejection(p: ch_ewf_grpc::officer_change::MemberPersonChange) -> Option<Seq<char>> {
        (match p.person {
            Some(person) => proto::base_types::PersonType::rejection(person),
            None => Some("Person name required"@),
        })
            .otherwise(unless(p.date_of_birth is Some, "Date of birth required"@))
            .otherwise(
                match p.new_name {
                    Some(name) => proto::base_types::PersonType::rejection(name),
                    None => None,
                },
            )
            .otherwise(
                match p.new_service_address {
                    Some(service_address) => proto::officer_change::ServiceAddressChange::rejection(service_address),
                    None => None,
                },
            )
            .otherwise(
                match p.new_residential_address {
                    Some(residential_address) => {
                        proto::base_types::ResidentialAddressType::rejection(residential_address)
                    },
                    None => None,
                },
            )
            .otherwise(
                match p.new_country_of_residence {
                    Some(text) => unless(text_ok(text@, 50), "Invalid nationality"@),
                    None => None,
                },
            )
    }

    /// Whether `self` is the change to the member `p` as it goes on the wire.
    pub open spec fn is_accepted(self, p: ch_ewf_grpc::officer_change::MemberPersonChange) -> bool {
        &&& p.person matches Some(person)
        &&& self.person.is_accepted(person)
        &&& p.date_of_birth == Some(self.dob)
        &&& self.change is Some
        &&& match p.new_name {
            Some(name) => self.change->0.person_change.name matches Some(got_name) && got_name.is_accepted(name),
            None => self.change->0.person_change.name is None,
        }
        &&& match p.new_service_address {
            Some(service_address) => {
                self.change->0.person_change.service_address matches Some(got_service_address) && got_service_address.is_accepted(service_address)
            },
            None => self.change->0.person_change.service_address is None,
        }
        &&& match p.new_residential_address {
            Some(residential_address) => {
                self.change->0.residential_address matches Some(got_residential_address) && got_residential_address.is_accepted(residential_address)
            },
            None => self.change->0.residential_address is None,
        }
        &&& self.change->0.country_of_residence == p.new_country_of_residence
        &&& self.change->0.designated == spec_designated(p.designated)
    }

    pub fn try_from(p: ch_ewf_grpc::officer_change::MemberPersonChange) -> (r: Result<Self, ServiceError>)
        ensures
            match Self::rejection(p) {
                Some(message) => rejected(r, message),
                None => r matches Ok(v) && v.is_accepted(p),
            },
    {
        let person = match p.person {
            Some(person) => proto::base_types::PersonType::try_from(person)?,
            None => {
                return invalid_argument("Person name required");
            },
        };
        let dob = match p.date_of_birth {
            Some(d) => d,
            None => {
                return invalid_argument("Date of birth required");
            },
        };
        let name = match p.new_name {
            Some(name) => Some(proto::base_types::PersonType::try_from(name)?),
            None => None,
        };
        let service_address = match p.new_service_address {
            Some(service_address) => Some(proto::officer_change::ServiceAddressChange::try_from(service_address)?),
            None => None,
        };
        let residential_address = match p.new_residential_address {
            Some(residential_address) => {
                Some(proto::base_types::ResidentialAddressType::try_from(residential_address)?)
            },
            None => None,
        };
        match &p.new_country_of_residence {
            Some(text) => {
                if !required_text(text.as_str(), 50) {
                    return invalid_argument("Invalid nationality");
                }
            },
            None => {},
        }
        Ok(
            proto::officer_change::MemberPersonChange {
                person,
                dob,
                change: Some(
                    proto::officer_change::MemberPersonChangeDetails {
                        person_change: proto::officer_change::PersonChangeDetails {
                            name,
                            service_address,
                        },
                        residential_address,
                        country_of_residence: p.new_country_of_residence,
                        designated: designated(p.designated),
                    },
                ),
            },
        )
    }
}

impl proto::officer_change::CorporateMemberChangeType {
    /// Why the change to the corporate member `c` is refused, if it is.
    pub open spec fn rejection(c: ch_ewf_grpc::officer_change::CorporateMemberChange) -> Option<Seq<char>> {
        match c.corporate_change {
            Some(change) => unless(text_ok(change.corporate_name@, 160), "Invalid corporate name"@).otherwise(
                proto::officer_change::CorporateChangeDetails::rejection(change),
            ),
            None => Some("Corporate change required"@),
        }
    }

    /// Whether `self` is the change to the corporate member `c` as it goes on the wire.
    pub open spec fn is_accepted(self, c: ch_ewf_grpc::officer_change::CorporateMemberChange) -> bool {
        &&& c.corporate_change matches Some(change)
        &&& self.corporate_name == change.corporate_name
        &&& self.change matches Some(details)
        &&& details.change.is_accepted(change)
        &&& details.designated == spec_designated(c.designated)
    }

    pub fn try_from(c: ch_ewf_grpc::officer_change::CorporateMemberChange) -> (r: Result<Self, ServiceError>)
        ensures
            match Self::rejection(c) {
                Some(message) => rejected(r, message),
                None => r matches Ok(v) && v.is_accepted(c),
            },
    {
        let corporate_change = match c.corporate_change {
            Some(change) => change,
            None => {
                return invalid_argument("Corporate change required");
            },
        };
        if !required_text(corporate_change.corporate_name.as_str(), 160) {
            return invalid_argument("Invalid corporate name");
        }
        let corporate_name = corporate_change.corporate_name.clone();
        let change = proto::officer_change::CorporateChangeDetails::try_from(corporate_change)?;
        Ok(
            proto::officer_change::CorporateMemberChangeType {
                corporate_name,
                change: Some(
                    proto::officer_change::CorporateMemberChangeDetails { change, designated: designated(c.designated) },
                ),
            },
        )
    }
}

impl proto::officer_change::MemberChange {
    /// Why the member `o` is refused, if it is: it holds none of its kinds, or the one it holds is refused.
    pub open spec fn rejection(o: ch_ewf_grpc::officer_change::Member) -> Option<Seq<char>> {
        match o.member {
            Some(ch_ewf_grpc::officer_change::MemberValue::Person(p)) => {
                proto::officer_change::MemberPersonChange::rejection(p)
            },
            Some(ch_ewf_grpc::officer_change::MemberValue::Corporate(c)) => {
                proto::officer_change::CorporateMemberChangeType::rejection(c)
            },
            None => Some("Member type required"@),
        }
    }

    /// Whether `self` is the member `o` as it goes on the wire.
    pub open spec fn is_accepted(self, o: ch_ewf_grpc::officer_change::Member) -> bool {
        match o.member {
            Some(ch_ewf_grpc::officer_change::MemberValue::Person(p)) => {
                self matches proto::officer_change::MemberChange::Person(got) && (*got).is_accepted(p)
            },
            Some(ch_ewf_grpc::officer_change::MemberValue::Corporate(c)) => {
                self matches proto::officer_change::MemberChange::Corporate(got) && (*got).is_accepted(c)
            },
            None => false,
        }
    }

    pub fn try_from(o: ch_ewf_grpc::officer_change::Member) -> (r: Result<Self, ServiceError>)
        ensures
            match Self::rejection(o) {
                Some(message) => rejected(r, message),
                None => r matches Ok(v) && v.is_accepted(o),
            },
    {
        match o.member {
            Some(ch_ewf_grpc::officer_change::MemberValue::Person(p)) => {
                Ok(
                    proto::officer_change::MemberChange::Person(
                        Box::new(proto::officer_change::MemberPersonChange::try_from(p)?),
                    ),
                )
            },
            Some(ch_ewf_grpc::officer_change::MemberValue::Corporate(c)) => {
                Ok(
                    proto::officer_change::MemberChange::Corporate(
                        Box::new(proto::officer_change::CorporateMemberChangeType::try_from(c)?),
                    ),
                )
            },
            None => invalid_argument("Member type required"),
        }
    }
}

impl proto::officer_change::ChangeType {
    /// Why the change `change` is refused, if it is: it holds none of its kinds, or the one it holds is refused.
    pub open spec fn rejection(change: Option<ch_ewf_grpc::officer_change::Change>) -> Option<Seq<char>> {
        match change {
            Some(ch_ewf_grpc::officer_change::Change::Director(o)) => {
                proto::officer_change::DirectorChange::rejection(o)
            },
            Some(ch_ewf_grpc::officer_change::Change::Secretary(o)) => {
                proto::officer_change::SecretaryChange::rejection(o)
            },
            Some(ch_ewf_grpc::officer_change::Change::Member(o)) => proto::officer_change::MemberChange::rejection(o),
            None => Some("Entity changing must be provided"@),
        }
    }

    /// Whether `self` is the change `change` as it goes on the wire.
    pub open spec fn is_accepted(self, change: Option<ch_ewf_grpc::officer_change::Change>) -> bool {
        match change {
            Some(ch_ewf_grpc::officer_change::Change::Director(o)) => {
                self matches proto::officer_change::ChangeType::Director(got) && got.is_accepted(o)
            },
            Some(ch_ewf_grpc::officer_change::Change::Secretary(o)) => {
                self matches proto::officer_change::ChangeType::Secretary(got) && (*got).is_accepted(o)
            },
            Some(ch_ewf_grpc::officer_change::Change::Member(o)) => {
                self matches proto::officer_change::ChangeType::Member(got) && got.is_accepted(o)
            },
            None => false,
        }
    }

    pub fn try_from(change: Option<ch_ewf_grpc::officer_change::Change>) -> (r: Result<Self, ServiceError>)
        ensures
            match Self::rejection(change) {
                Some(message) => rejected(r, message),
                None => r matches Ok(v) && v.is_accepted(change),
            },
    {
        match change {
            Some(ch_ewf_grpc::officer_change::Change::Director(o)) => {
                Ok(proto::officer_change::ChangeType::Director(proto::officer_change::DirectorChange::try_from(o)?))
            },
            Some(ch_ewf_grpc::officer_change::Change::Secretary(o)) => {
                Ok(
                    proto::officer_change::ChangeType::Secretary(
                        Box::new(proto::officer_change::SecretaryChange::try_from(o)?),
                    ),
                )
            },
            Some(ch_ewf_grpc::officer_change::Change::Member(o)) => {
                Ok(proto::officer_change::ChangeType::Member(proto::officer_change::MemberChange::try_from(o)?))
            },
            None => invalid_argument("Entity changing must be provided"),
        }
    }
}

impl proto::officer_change::OfficerChangeDetails {
    /// Why the form `msg` is refused, if it is: for the first check, in order, that it fails.
    pub open spec fn rejection(msg: ch_ewf_grpc::officer_change::OfficerChange) -> Option<Seq<char>> {
        unless(msg.date_of_change is Some, "Date of change required"@)
            .otherwise(proto::officer_change::ChangeType::rejection(msg.change))
    }

    /// Whether `self` is the form `msg` as it goes on the wire.
    pub open spec fn is_accepted(self, msg: ch_ewf_grpc::officer_change::OfficerChange) -> bool {
        &&& msg.date_of_change == Some(self.date_of_change)
        &&& self.change.is_accepted(msg.change)
    }

    pub fn try_from(msg: ch_ewf_grpc::officer_change::OfficerChange) -> (r: Result<Self, ServiceError>)
        ensures
            match Self::rejection(msg) {
                Some(message) => rejected(r, message),
                None => r matches Ok(v) && v.is_accepted(msg),
            },
    {
        let date_of_change = match msg.date_of_change {
            Some(d) => d,
            None => {
                return invalid_argument("Date of change required");
            },
        };
        let change = proto::officer_change::ChangeType::try_from(msg.change)?;
        Ok(
            proto::officer_change::OfficerChangeDetails {
                date_of_change,
                change,
            },
        )
    }
}

impl CHFillingService {
    /// Checks a change in the details of an officer and puts the form together.
    pub fn officer_change(msg: ch_ewf_grpc::officer_change::OfficerChange) -> (r: Result<FormRequest, ServiceError>)
        ensures
            match proto::officer_change::OfficerChangeDetails::rejection(msg) {
                Some(message) => rejected(r, message),
                None => {
                    &&& r matches Ok(request)
                    &&& request.is_for(msg.form_submission, "OfficerChangeDetails"@, "OfficerChangeDetails"@)
                    &&& request.form matches proto::form_submission::Form::OfficerChangeDetails(form)
                    &&& form.is_accepted(msg)
                },
            },
    {
        let mut msg = msg;
        let form_submission = msg.form_submission.take();
        let form = proto::officer_change::OfficerChangeDetails::try_from(msg)?;
        Ok(
            FormRequest {
                form_submission,
                submission_class: "OfficerChangeDetails".to_owned(),
                form_type: "OfficerChangeDetails".to_owned(),
                form: proto::form_submission::Form::OfficerChangeDetails(form),
                documents: Vec::new(),
            },
        )
    }
}

} // verus!
