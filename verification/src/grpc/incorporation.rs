//! The incorporation of a company: how the form, its documents and the
//! registration for corporation tax that may come with it are checked and
//! put together.

use vstd::prelude::*;
use vstd::string::*;
use crate::ch_ewf_grpc;
use crate::error::ServiceError;
use crate::grpc::charges::add_document;
use crate::grpc::forms::{sic_code_rejection_fn, sic_codes};
use crate::grpc::submission::{spec_language, FormTransaction};
use crate::proto::govtalk::GovTalkBody;
use crate::grpc::CHFillingService;
use crate::outside::{to_uppercase, uppercase};
use crate::proto;
use crate::rules::{
    first_rejection, invalid_argument, lemma_first_rejection, named, non_empty, optional, optional_ok,
    optional_text, rejected, required_text, text_ok, unless, Checks,
};
use crate::text::{byte_len, len};

verus! {

impl proto::corporation_tax_information::Address {
    /// Why the address `value` is refused, if it is: for the first check, in order, that it fails.
    pub open spec fn rejection(value: ch_ewf_grpc::company_incorporation::HmrcAddress) -> Option<Seq<char>> {
        unless(text_ok(value.address_line_1@, 27), "Invalid address line 1"@)
            .otherwise(unless(text_ok(value.address_line_2@, 27), "Invalid address line 2"@))
            .otherwise(unless(optional_ok(value.address_line_3@, 27), "Invalid address line 3"@))
            .otherwise(unless(optional_ok(value.address_line_4@, 18), "Invalid address line 4"@))
            .otherwise(unless(optional_ok(value.post_code@, 15), "Invalid postcode"@))
            .otherwise(unless(optional_ok(value.country@, 20), "Invalid country"@))
    }

    /// Whether `self` is the address `value` as it goes on the wire.
    pub open spec fn is_accepted(self, value: ch_ewf_grpc::company_incorporation::HmrcAddress) -> bool {
        &&& self.address_line_1 == value.address_line_1
        &&& self.address_line_2 == value.address_line_2
        &&& self.address_line_3 == optional(value.address_line_3)
        &&& self.address_line_4 == optional(value.address_line_4)
        &&& self.post_code == optional(value.post_code)
        &&& self.country == optional(value.country)
    }

    pub fn try_from(value: ch_ewf_grpc::company_incorporation::HmrcAddress) -> (r: Result<Self, ServiceError>)
        ensures
            match Self::rejection(value) {
                Some(message) => rejected(r, message),
                None => r matches Ok(v) && v.is_accepted(value),
            },
    {
        if !required_text(value.address_line_1.as_str(), 27) {
            return invalid_argument("Invalid address line 1");
        }
        if !required_text(value.address_line_2.as_str(), 27) {
            return invalid_argument("Invalid address line 2");
        }
        if !optional_text(value.address_line_3.as_str(), 27) {
            return invalid_argument("Invalid address line 3");
        }
        if !optional_text(value.address_line_4.as_str(), 18) {
            return invalid_argument("Invalid address line 4");
        }
        if !optional_text(value.post_code.as_str(), 15) {
            return invalid_argument("Invalid postcode");
        }
        if !optional_text(value.country.as_str(), 20) {
            return invalid_argument("Invalid country");
        }
        Ok(
            proto::corporation_tax_information::Address {
                address_line_1: value.address_line_1,
                address_line_2: value.address_line_2,
                address_line_3: non_empty(value.address_line_3),
                address_line_4: non_empty(value.address_line_4),
                post_code: non_empty(value.post_code),
                country: non_empty(value.country),
            },
        )
    }
}

impl proto::company_incorporation::CorporateName {
    /// Why the corporate name `c` is refused, if it is: for the first check, in order, that it fails.
    pub open spec fn rejection(c: ch_ewf_grpc::company_incorporation::CorporateName) -> Option<Seq<char>> {
        unless(text_ok(c.corporate_name@, 160), "Invalid corporate name"@)
            .otherwise(
                match c.person {
                    Some(person_name) => proto::base_types::Person::rejection(person_name),
                    None => Some("Person name required"@),
                },
            )
    }

    /// Whether `self` is the corporate name `c` as it goes on the wire.
    pub open spec fn is_accepted(self, c: ch_ewf_grpc::company_incorporation::CorporateName) -> bool {
        &&& self.corporate_name == c.corporate_name
        &&& c.person matches Some(person_name)
        &&& self.person_name.is_accepted(person_name)
    }

    pub fn try_from(c: ch_ewf_grpc::company_incorporation::CorporateName) -> (r: Result<Self, ServiceError>)
        ensures
            match Self::rejection(c) {
                Some(message) => rejected(r, message),
                None => r matches Ok(v) && v.is_accepted(c),
            },
    {
        if !required_text(c.corporate_name.as_str(), 160) {
            return invalid_argument("Invalid corporate name");
        }
        let person_name = match c.person {
            Some(person_name) => proto::base_types::Person::try_from(person_name)?,
            None => {
                return invalid_argument("Person name required");
            },
        };
        Ok(
            proto::company_incorporation::CorporateName {
                corporate_name: c.corporate_name,
                person_name,
            },
        )
    }
}

impl proto::company_incorporation::IncorporationPersonName {
    /// Why the name `name` is refused, if it is: it holds none of its kinds, or the one it holds is refused.
    pub open spec fn rejection(name: Option<ch_ewf_grpc::company_incorporation::PersonNameValue>) -> Option<Seq<char>> {
        match name {
            Some(ch_ewf_grpc::company_incorporation::PersonNameValue::Person(p)) => {
                proto::base_types::Person::rejection(p)
            },
            Some(ch_ewf_grpc::company_incorporation::PersonNameValue::Corporate(c)) => {
                proto::company_incorporation::CorporateName::rejection(c)
            },
            None => Some("Authorizer name required"@),
        }
    }

    /// Whether `self` is the name `name` as it goes on the wire.
    pub open spec fn is_accepted(self, name: Option<ch_ewf_grpc::company_incorporation::PersonNameValue>) -> bool {
        match name {
            Some(ch_ewf_grpc::company_incorporation::PersonNameValue::Person(p)) => {
                self matches proto::company_incorporation::IncorporationPersonName::Person(got) && got.is_accepted(p)
            },
            Some(ch_ewf_grpc::company_incorporation::PersonNameValue::Corporate(c)) => {
                self matches proto::company_incorporation::IncorporationPersonName::Corporate(got) && got.is_accepted(c)
            },
            None => false,
        }
    }

    pub fn try_from(
        name: Option<ch_ewf_grpc::company_incorporation::PersonNameValue>,
    ) -> (r: Result<Self, ServiceError>)
        ensures
            match Self::rejection(name) {
                Some(message) => rejected(r, message),
                None => r matches Ok(v) && v.is_accepted(name),
            },
    {
        match name {
            Some(ch_ewf_grpc::company_incorporation::PersonNameValue::Person(p)) => {
                Ok(
                    proto::company_incorporation::IncorporationPersonName::Person(
                        proto::base_types::Person::try_from(p)?,
                    ),
                )
            },
            Some(ch_ewf_grpc::company_incorporation::PersonNameValue::Corporate(c)) => {
                Ok(
                    proto::company_incorporation::IncorporationPersonName::Corporate(
                        proto::company_incorporation::CorporateName::try_from(c)?,
                    ),
                )
            },
            None => invalid_argument("Authorizer name required"),
        }
    }
}

impl proto::company_incorporation::AuthoriserType {
    /// Why the authoriser `value` is refused, if it is: for the first check, in order, that it fails.
    pub open spec fn rejection(value: ch_ewf_grpc::company_incorporation::Authorizer) -> Option<Seq<char>> {
        unless(value.personal_attributes@.len() == 3, "Invalid number of personal attributes"@)
            .otherwise(proto::company_incorporation::IncorporationPersonName::rejection(value.name))
            .otherwise(first_rejection(value.personal_attributes@, proto::base_types::PersonalAttribute::rejection_fn()))
    }

    /// Whether `self` is the authoriser `value` as it goes on the wire.
    pub open spec fn is_accepted(self, value: ch_ewf_grpc::company_incorporation::Authorizer) -> bool {
        &&& self.name.is_accepted(value.name)
        &&& proto::base_types::PersonalAttribute::are_accepted(self.authentication@, value.personal_attributes@)
    }

    pub fn try_from(value: ch_ewf_grpc::company_incorporation::Authorizer) -> (r: Result<Self, ServiceError>)
        ensures
            match Self::rejection(value) {
                Some(message) => rejected(r, message),
                None => r matches Ok(v) && v.is_accepted(value),
            },
    {
        if value.personal_attributes.len() != 3 {
            return invalid_argument("Invalid number of personal attributes");
        }
        let name = proto::company_incorporation::IncorporationPersonName::try_from(value.name)?;
        let authentication = proto::base_types::PersonalAttribute::try_from_all(value.personal_attributes)?;
        Ok(
            proto::company_incorporation::AuthoriserType {
                name,
                authentication,
            },
        )
    }

    /// `rejection` as a function.
    pub open spec fn rejection_fn() -> spec_fn(ch_ewf_grpc::company_incorporation::Authorizer) -> Option<Seq<char>> {
        |value: ch_ewf_grpc::company_incorporation::Authorizer| Self::rejection(value)
    }

    /// Whether `list` holds the items of `items`, each as it goes on the wire, in order.
    pub open spec fn are_accepted(list: Seq<Self>, items: Seq<ch_ewf_grpc::company_incorporation::Authorizer>) -> bool {
        list.len() == items.len() && forall|i: int|
            0 <= i < list.len() ==> (#[trigger] list[i]).is_accepted(items[i])
    }

    /// Checks the items in order and stops at the first that is refused.
    pub fn try_from_all(
        items: Vec<ch_ewf_grpc::company_incorporation::Authorizer>,
    ) -> (r: Result<Vec<Self>, ServiceError>)
        ensures
            match first_rejection(items@, Self::rejection_fn()) {
                Some(message) => rejected(r, message),
                None => r matches Ok(list) && Self::are_accepted(list@, items@),
            },
    {
        let mut list: Vec<Self> = Vec::new();
        let ghost all = items@;
        for item in it: items
            invariant
                it.seq() == all,
                list@.len() == it.index(),
                forall|j: int| 0 <= j < it.index() ==> (Self::rejection_fn())(#[trigger] all[j]) is None,
                forall|j: int| 0 <= j < it.index() ==> (#[trigger] list@[j]).is_accepted(all[j]),
        {
            proof {
                lemma_first_rejection(all, Self::rejection_fn(), it.index() as int);
            }
            let v = Self::try_from(item)?;
            list.push(v);
        }
        proof {
            lemma_first_rejection(all, Self::rejection_fn(), all.len() as int);
        }
        Ok(list)
    }
}

impl proto::company_incorporation::IncorporationPerson {
    /// Why the person `value` is refused, if it is: for the first check, in order, that it fails.
    pub open spec fn rejection(value: ch_ewf_grpc::company_incorporation::Person) -> Option<Seq<char>> {
        unless(value.personal_attributes@.len() == 3, "Invalid number of personal attributes"@)
            .otherwise(proto::company_incorporation::IncorporationPersonName::rejection(value.name))
            .otherwise(
                match value.address {
                    Some(address) => proto::base_types::BaseAddress::rejection(address),
                    None => Some("Person address required"@),
                },
            )
            .otherwise(first_rejection(value.personal_attributes@, proto::base_types::PersonalAttribute::rejection_fn()))
            .otherwise(unless(optional_ok(value.member_class@, 50), "Invalid member class"@))
    }

    /// Whether `self` is the person `value` as it goes on the wire.
    pub open spec fn is_accepted(self, value: ch_ewf_grpc::company_incorporation::Person) -> bool {
        &&& self.name.is_accepted(value.name)
        &&& value.address matches Some(address)
        &&& self.address.is_accepted(address)
        &&& proto::base_types::PersonalAttribute::are_accepted(self.authentication@, value.personal_attributes@)
        &&& self.member_class == optional(value.member_class)
    }

    pub fn try_from(value: ch_ewf_grpc::company_incorporation::Person) -> (r: Result<Self, ServiceError>)
        ensures
            match Self::rejection(value) {
                Some(message) => rejected(r, message),
                None => r matches Ok(v) && v.is_accepted(value),
            },
    {
        if value.personal_attributes.len() != 3 {
            return invalid_argument("Invalid number of personal attributes");
        }
        let name = proto::company_incorporation::IncorporationPersonName::try_from(value.name)?;
        let address = match value.address {
            Some(address) => proto::base_types::BaseAddress::try_from(address)?,
            None => {
                return invalid_argument("Person address required");
            },
        };
        let authentication = proto::base_types::PersonalAttribute::try_from_all(value.personal_attributes)?;
        if !optional_text(value.member_class.as_str(), 50) {
            return invalid_argument("Invalid member class");
        }
        Ok(
            proto::company_incorporation::IncorporationPerson {
                name,
                address,
                authentication,
                member_class: non_empty(value.member_class),
            },
        )
    }
}

impl proto::company_incorporation::Agent {
    /// Why the agent `a` is refused, if it is: for the first check, in order, that it fails.
    pub open spec fn rejection(a: ch_ewf_grpc::company_incorporation::Agent) -> Option<Seq<char>> {
        (match a.authorizer {
            Some(authoriser) => proto::company_incorporation::AuthoriserType::rejection(authoriser),
            None => Some("Agent authorization required"@),
        })
            .otherwise(
                match a.address {
                    Some(address) => proto::base_types::BaseAddress::rejection(address),
                    None => Some("Agent address required"@),
                },
            )
    }

    /// Whether `self` is the agent `a` as it goes on the wire.
    pub open spec fn is_accepted(self, a: ch_ewf_grpc::company_incorporation::Agent) -> bool {
        &&& a.authorizer matches Some(authoriser)
        &&& self.authoriser.is_accepted(authoriser)
        &&& a.address matches Some(address)
        &&& self.address.is_accepted(address)
    }

    pub fn try_from(a: ch_ewf_grpc::company_incorporation::Agent) -> (r: Result<Self, ServiceError>)
        ensures
            match Self::rejection(a) {
                Some(message) => rejected(r, message),
                None => r matches Ok(v) && v.is_accepted(a),
            },
    {
        let authoriser = match a.authorizer {
            Some(authoriser) => proto::company_incorporation::AuthoriserType::try_from(authoriser)?,
            None => {
                return invalid_argument("Agent authorization required");
            },
        };
        let address = match a.address {
            Some(address) => proto::base_types::BaseAddress::try_from(address)?,
            None => {
                return invalid_argument("Agent address required");
            },
        };
        Ok(
            proto::company_incorporation::Agent {
                authoriser,
                address,
            },
        )
    }
}

impl proto::company_incorporation::Authoriser {
    /// Why the authoriser `authorizer` is refused, if it is: it holds none of its kinds, or the one
    /// it holds is refused.
    pub open spec fn rejection(
        authorizer: Option<ch_ewf_grpc::company_incorporation::AuthorizerValue>,
    ) -> Option<Seq<char>> {
        match authorizer {
            Some(ch_ewf_grpc::company_incorporation::AuthorizerValue::Agent(a)) => {
                proto::company_incorporation::Agent::rejection(a)
            },
            Some(ch_ewf_grpc::company_incorporation::AuthorizerValue::Solicitor(s)) => {
                proto::company_incorporation::AuthoriserType::rejection(s)
            },
            Some(ch_ewf_grpc::company_incorporation::AuthorizerValue::Member(m)) => {
                proto::company_incorporation::AuthoriserType::rejection(m)
            },
            Some(ch_ewf_grpc::company_incorporation::AuthorizerValue::AuthorizerSubscribers(s)) => {
                first_rejection(s.subscribers@, proto::company_incorporation::AuthoriserType::rejection_fn())
            },
            None => Some("Authorizer required"@),
        }
    }

    /// Whether `self` is the authoriser `authorizer` as it goes on the wire.
    pub open spec fn is_accepted(
        self,
        authorizer: Option<ch_ewf_grpc::company_incorporation::AuthorizerValue>,
    ) -> bool {
        match authorizer {
            Some(ch_ewf_grpc::company_incorporation::AuthorizerValue::Agent(a)) => {
                self matches proto::company_incorporation::Authoriser::Agent(got) && got.is_accepted(a)
            },
            Some(ch_ewf_grpc::company_incorporation::AuthorizerValue::Solicitor(s)) => {
                self matches proto::company_incorporation::Authoriser::Solicitor(got) && got.is_accepted(s)
            },
            Some(ch_ewf_grpc::company_incorporation::AuthorizerValue::Member(m)) => {
                self matches proto::company_incorporation::Authoriser::Member(got) && got.is_accepted(m)
            },
            Some(ch_ewf_grpc::company_incorporation::AuthorizerValue::AuthorizerSubscribers(s)) => self matches proto::company_incorporation::Authoriser::Subscribers(got) && proto::company_incorporation::AuthoriserType::are_accepted(
                got.subscribers@,
                s.subscribers@,
            ),
            None => false,
        }
    }

    pub fn try_from(
        authorizer: Option<ch_ewf_grpc::company_incorporation::AuthorizerValue>,
    ) -> (r: Result<Self, ServiceError>)
        ensures
            match Self::rejection(authorizer) {
                Some(message) => rejected(r, message),
                None => r matches Ok(v) && v.is_accepted(authorizer),
            },
    {
        match authorizer {
            Some(ch_ewf_grpc::company_incorporation::AuthorizerValue::Agent(a)) => {
                Ok(proto::company_incorporation::Authoriser::Agent(proto::company_incorporation::Agent::try_from(a)?))
            },
            Some(ch_ewf_grpc::company_incorporation::AuthorizerValue::Solicitor(s)) => {
                Ok(
                    proto::company_incorporation::Authoriser::Solicitor(
                        proto::company_incorporation::AuthoriserType::try_from(s)?,
                    ),
                )
            },
            Some(ch_ewf_grpc::company_incorporation::AuthorizerValue::Member(m)) => {
                Ok(
                    proto::company_incorporation::Authoriser::Member(
                        proto::company_incorporation::AuthoriserType::try_from(m)?,
                    ),
                )
            },
            Some(ch_ewf_grpc::company_incorporation::AuthorizerValue::AuthorizerSubscribers(s)) => {
                Ok(
                    proto::company_incorporation::Authoriser::Subscribers(
                        proto::company_incorporation::AuthoriserSubscribers {
                            subscribers: proto::company_incorporation::AuthoriserType::try_from_all(s.subscribers)?,
                        },
                    ),
                )
            },
            None => invalid_argument("Authorizer required"),
        }
    }
}

impl proto::company_incorporation::AppointmentType {
    /// Why the appointment `appointment` is refused, if it is: it holds none of its kinds, or the
    /// one it holds is refused.
    pub open spec fn rejection(
        appointment: Option<ch_ewf_grpc::officer_appointment::Appointment>,
    ) -> Option<Seq<char>> {
        match appointment {
            Some(ch_ewf_grpc::officer_appointment::Appointment::Director(d)) => {
                proto::base_types::DirectorAppointmentType::rejection(d)
            },
            Some(ch_ewf_grpc::officer_appointment::Appointment::Secretary(s)) => {
                proto::base_types::SecretaryAppointmentType::rejection(s)
            },
            Some(ch_ewf_grpc::officer_appointment::Appointment::Member(m)) => {
                proto::base_types::MemberAppointmentType::rejection(m)
            },
            None => Some("Appointment type required"@),
        }
    }

    /// Whether `self` is the appointment `appointment` as it goes on the wire.
    pub open spec fn is_accepted(self, appointment: Option<ch_ewf_grpc::officer_appointment::Appointment>) -> bool {
        match appointment {
            Some(ch_ewf_grpc::officer_appointment::Appointment::Director(d)) => {
                self matches proto::company_incorporation::AppointmentType::Director(got) && got.is_accepted(d)
            },
            Some(ch_ewf_grpc::officer_appointment::Appointment::Secretary(s)) => {
                self matches proto::company_incorporation::AppointmentType::Secretary(got) && got.is_accepted(s)
            },
            Some(ch_ewf_grpc::officer_appointment::Appointment::Member(m)) => {
                self matches proto::company_incorporation::AppointmentType::Member(got) && (*got).is_accepted(m)
            },
            None => false,
        }
    }

    pub fn try_from(
        appointment: Option<ch_ewf_grpc::officer_appointment::Appointment>,
    ) -> (r: Result<Self, ServiceError>)
        ensures
            match Self::rejection(appointment) {
                Some(message) => rejected(r, message),
                None => r matches Ok(v) && v.is_accepted(appointment),
            },
    {
        match appointment {
            Some(ch_ewf_grpc::officer_appointment::Appointment::Director(d)) => {
                Ok(
                    proto::company_incorporation::AppointmentType::Director(
                        proto::base_types::DirectorAppointmentType::try_from(d)?,
                    ),
                )
            },
            Some(ch_ewf_grpc::officer_appointment::Appointment::Secretary(s)) => {
                Ok(
                    proto::company_incorporation::AppointmentType::Secretary(
                        proto::base_types::SecretaryAppointmentType::try_from(s)?,
                    ),
                )
            },
            Some(ch_ewf_grpc::officer_appointment::Appointment::Member(m)) => {
                Ok(
                    proto::company_incorporation::AppointmentType::Member(
                        Box::new(proto::base_types::MemberAppointmentType::try_from(m)?),
                    ),
                )
            },
            None => invalid_argument("Appointment type required"),
        }
    }
}

impl proto::company_incorporation::Appointment {
    /// Why the appointment `a` is refused, if it is: for the first check, in order, that it fails.
    pub open spec fn rejection(a: ch_ewf_grpc::company_incorporation::Appointment) -> Option<Seq<char>> {
        proto::company_incorporation::AppointmentType::rejection(a.appointment)
    }

    /// Whether `self` is the appointment `a` as it goes on the wire.
    pub open spec fn is_accepted(self, a: ch_ewf_grpc::company_incorporation::Appointment) -> bool {
        &&& self.consent_to_act == a.consent_to_act
        &&& self.appointment.is_accepted(a.appointment)
    }

    pub fn try_from(a: ch_ewf_grpc::company_incorporation::Appointment) -> (r: Result<Self, ServiceError>)
        ensures
            match Self::rejection(a) {
                Some(message) => rejected(r, message),
                None => r matches Ok(v) && v.is_accepted(a),
            },
    {
        let appointment = proto::company_incorporation::AppointmentType::try_from(a.appointment)?;
        Ok(
            proto::company_incorporation::Appointment {
                consent_to_act: a.consent_to_act,
                appointment,
            },
        )
    }

    /// `rejection` as a function.
    pub open spec fn rejection_fn() -> spec_fn(ch_ewf_grpc::company_incorporation::Appointment) -> Option<Seq<char>> {
        |a: ch_ewf_grpc::company_incorporation::Appointment| Self::rejection(a)
    }

    /// Whether `list` holds the items of `items`, each as it goes on the wire, in order.
    pub open spec fn are_accepted(
        list: Seq<Self>,
        items: Seq<ch_ewf_grpc::company_incorporation::Appointment>,
    ) -> bool {
        list.len() == items.len() && forall|i: int|
            0 <= i < list.len() ==> (#[trigger] list[i]).is_accepted(items[i])
    }

    /// Checks the items in order and stops at the first that is refused.
    pub fn try_from_all(
        items: Vec<ch_ewf_grpc::company_incorporation::Appointment>,
    ) -> (r: Result<Vec<Self>, ServiceError>)
        ensures
            match first_rejection(items@, Self::rejection_fn()) {
                Some(message) => rejected(r, message),
                None => r matches Ok(list) && Self::are_accepted(list@, items@),
            },
    {
        let mut list: Vec<Self> = Vec::new();
        let ghost all = items@;
        for item in it: items
            invariant
                it.seq() == all,
                list@.len() == it.index(),
                forall|j: int| 0 <= j < it.index() ==> (Self::rejection_fn())(#[trigger] all[j]) is None,
                forall|j: int| 0 <= j < it.index() ==> (#[trigger] list@[j]).is_accepted(all[j]),
        {
            proof {
                lemma_first_rejection(all, Self::rejection_fn(), it.index() as int);
            }
            let v = Self::try_from(item)?;
            list.push(v);
        }
        proof {
            lemma_first_rejection(all, Self::rejection_fn(), all.len() as int);
        }
        Ok(list)
    }
}

impl proto::company_incorporation::Psc {
    /// Why the person with significant control `p` is refused, if it is: for the first check, in order, that it fails.
    pub open spec fn rejection(p: ch_ewf_grpc::company_incorporation::Psc) -> Option<Seq<char>> {
        (match p.notification {
            Some(notification) => proto::company_incorporation::PSCNotificationType::rejection(notification),
            None => Some("PSC notification required"@),
        })
            .otherwise(
                match p.nature_of_control {
                    Some(nature_of_control) => proto::psc::PSCNatureOfControls::rejection(nature_of_control),
                    None => Some("PSC nature of controls required"@),
                },
            )
    }

    /// Whether `self` is the person with significant control `p` as it goes on the wire.
    pub open spec fn is_accepted(self, p: ch_ewf_grpc::company_incorporation::Psc) -> bool {
        &&& p.notification matches Some(notification)
        &&& self.notification.notification.is_accepted(notification)
        &&& p.nature_of_control matches Some(nature_of_control)
        &&& self.notification.nature_of_control.is_accepted(nature_of_control)
    }

    pub fn try_from(p: ch_ewf_grpc::company_incorporation::Psc) -> (r: Result<Self, ServiceError>)
        ensures
            match Self::rejection(p) {
                Some(message) => rejected(r, message),
                None => r matches Ok(v) && v.is_accepted(p),
            },
    {
        let notification = match p.notification {
            Some(notification) => proto::company_incorporation::PSCNotificationType::try_from(notification)?,
            None => {
                return invalid_argument("PSC notification required");
            },
        };
        let nature_of_control = match p.nature_of_control {
            Some(nature_of_control) => proto::psc::PSCNatureOfControls::try_from(nature_of_control)?,
            None => {
                return invalid_argument("PSC nature of controls required");
            },
        };
        Ok(
            proto::company_incorporation::Psc {
                notification: proto::company_incorporation::PSCNotification {
                    notification,
                    nature_of_control,
                },
            },
        )
    }

    /// `rejection` as a function.
    pub open spec fn rejection_fn() -> spec_fn(ch_ewf_grpc::company_incorporation::Psc) -> Option<Seq<char>> {
        |p: ch_ewf_grpc::company_incorporation::Psc| Self::rejection(p)
    }

    /// Whether `list` holds the items of `items`, each as it goes on the wire, in order.
    pub open spec fn are_accepted(list: Seq<Self>, items: Seq<ch_ewf_grpc::company_incorporation::Psc>) -> bool {
        list.len() == items.len() && forall|i: int|
            0 <= i < list.len() ==> (#[trigger] list[i]).is_accepted(items[i])
    }

    /// Checks the items in order and stops at the first that is refused.
    pub fn try_from_all(items: Vec<ch_ewf_grpc::company_incorporation::Psc>) -> (r: Result<Vec<Self>, ServiceError>)
        ensures
            match first_rejection(items@, Self::rejection_fn()) {
                Some(message) => rejected(r, message),
                None => r matches Ok(list) && Self::are_accepted(list@, items@),
            },
    {
        let mut list: Vec<Self> = Vec::new();
        let ghost all = items@;
        for item in it: items
            invariant
                it.seq() == all,
                list@.len() == it.index(),
                forall|j: int| 0 <= j < it.index() ==> (Self::rejection_fn())(#[trigger] all[j]) is None,
                forall|j: int| 0 <= j < it.index() ==> (#[trigger] list@[j]).is_accepted(all[j]),
        {
            proof {
                lemma_first_rejection(all, Self::rejection_fn(), it.index() as int);
            }
            let v = Self::try_from(item)?;
            list.push(v);
        }
        proof {
            lemma_first_rejection(all, Self::rejection_fn(), all.len() as int);
        }
        Ok(list)
    }
}

impl proto::company_incorporation::PSCs {
    /// Why the persons with significant control `psc` is refused, if it is: it holds none of its
    /// kinds, or the one it holds is refused.
    pub open spec fn rejection(psc: Option<ch_ewf_grpc::company_incorporation::PscValue>) -> Option<Seq<char>> {
        match psc {
            Some(ch_ewf_grpc::company_incorporation::PscValue::PscStatement(s)) => {
                unless(s is Some, "Company level PSC statement required"@)
            },
            Some(ch_ewf_grpc::company_incorporation::PscValue::Pscs(s)) => {
                first_rejection(s.pscs@, proto::company_incorporation::Psc::rejection_fn())
            },
            None => Some("PSCs required"@),
        }
    }

    /// Whether `self` is the persons with significant control `psc` as it goes on the wire.
    pub open spec fn is_accepted(self, psc: Option<ch_ewf_grpc::company_incorporation::PscValue>) -> bool {
        match psc {
            Some(ch_ewf_grpc::company_incorporation::PscValue::PscStatement(s)) => {
                s == Some(self->NoPSCStatement_0) && self is NoPSCStatement
            },
            Some(ch_ewf_grpc::company_incorporation::PscValue::Pscs(s)) => {
                self matches proto::company_incorporation::PSCs::PSCs(list) && proto::company_incorporation::Psc::are_accepted(list@, s.pscs@)
            },
            None => false,
        }
    }

    pub fn try_from(psc: Option<ch_ewf_grpc::company_incorporation::PscValue>) -> (r: Result<Self, ServiceError>)
        ensures
            match Self::rejection(psc) {
                Some(message) => rejected(r, message),
                None => r matches Ok(v) && v.is_accepted(psc),
            },
    {
        match psc {
            Some(ch_ewf_grpc::company_incorporation::PscValue::PscStatement(s)) => {
                match s {
                    Some(statement) => Ok(proto::company_incorporation::PSCs::NoPSCStatement(statement)),
                    None => invalid_argument("Company level PSC statement required"),
                }
            },
            Some(ch_ewf_grpc::company_incorporation::PscValue::Pscs(s)) => {
                Ok(proto::company_incorporation::PSCs::PSCs(proto::company_incorporation::Psc::try_from_all(s.pscs)?))
            },
            None => invalid_argument("PSCs required"),
        }
    }
}

impl proto::base_types::Allotment {
    /// Why the allotment `a` is refused, if it is: for the first check, in order, that it fails.
    pub open spec fn rejection(a: ch_ewf_grpc::company_incorporation::Allotment) -> Option<Seq<char>> {
        unless(text_ok(a.share_class@, 50), "Invalid share class"@)
            .otherwise(unless(a.num_shares.spec_in_range(crate::decimal::MAX_AMOUNT_MICROS), "Invalid number of shares"@))
            .otherwise(unless(a.amount_paid_due_per_share.spec_in_range(crate::decimal::MAX_AMOUNT_MICROS), "Invalid amount paid due per share"@))
            .otherwise(unless(a.amount_unpaid_per_share.spec_in_range(crate::decimal::MAX_AMOUNT_MICROS), "Invalid amount unpaid per share"@))
            .otherwise(unless(byte_len(a.share_currency@) == 3, "Invalid share currency"@))
    }

    /// Whether `self` is the allotment `a` as it goes on the wire.
    pub open spec fn is_accepted(self, a: ch_ewf_grpc::company_incorporation::Allotment) -> bool {
        &&& self.share_class == a.share_class
        &&& self.num_shares == a.num_shares
        &&& self.amount_paid_due_per_share == a.amount_paid_due_per_share
        &&& self.amount_unpaid_per_share == a.amount_unpaid_per_share
        &&& self.share_currency == a.share_currency
        &&& self.share_value == a.share_value
        &&& self.share_reference == optional(a.share_reference)
    }

    pub fn try_from(a: ch_ewf_grpc::company_incorporation::Allotment) -> (r: Result<Self, ServiceError>)
        ensures
            match Self::rejection(a) {
                Some(message) => rejected(r, message),
                None => r matches Ok(v) && v.is_accepted(a),
            },
    {
        if !required_text(a.share_class.as_str(), 50) {
            return invalid_argument("Invalid share class");
        }
        if !a.num_shares.in_range(crate::decimal::MAX_AMOUNT_MICROS) {
            return invalid_argument("Invalid number of shares");
        }
        if !a.amount_paid_due_per_share.in_range(crate::decimal::MAX_AMOUNT_MICROS) {
            return invalid_argument("Invalid amount paid due per share");
        }
        if !a.amount_unpaid_per_share.in_range(crate::decimal::MAX_AMOUNT_MICROS) {
            return invalid_argument("Invalid amount unpaid per share");
        }
        if len(a.share_currency.as_str()) != 3 {
            return invalid_argument("Invalid share currency");
        }
        Ok(
            proto::base_types::Allotment {
                share_class: a.share_class,
                num_shares: a.num_shares,
                amount_paid_due_per_share: a.amount_paid_due_per_share,
                amount_unpaid_per_share: a.amount_unpaid_per_share,
                share_currency: a.share_currency,
                share_value: a.share_value,
                share_reference: non_empty(a.share_reference),
            },
        )
    }

    /// `rejection` as a function.
    pub open spec fn rejection_fn() -> spec_fn(ch_ewf_grpc::company_incorporation::Allotment) -> Option<Seq<char>> {
        |a: ch_ewf_grpc::company_incorporation::Allotment| Self::rejection(a)
    }

    /// Whether `list` holds the items of `items`, each as it goes on the wire, in order.
    pub open spec fn are_accepted(list: Seq<Self>, items: Seq<ch_ewf_grpc::company_incorporation::Allotment>) -> bool {
        list.len() == items.len() && forall|i: int|
            0 <= i < list.len() ==> (#[trigger] list[i]).is_accepted(items[i])
    }

    /// Checks the items in order and stops at the first that is refused.
    pub fn try_from_all(
        items: Vec<ch_ewf_grpc::company_incorporation::Allotment>,
    ) -> (r: Result<Vec<Self>, ServiceError>)
        ensures
            match first_rejection(items@, Self::rejection_fn()) {
                Some(message) => rejected(r, message),
                None => r matches Ok(list) && Self::are_accepted(list@, items@),
            },
    {
        let mut list: Vec<Self> = Vec::new();
        let ghost all = items@;
        for item in it: items
            invariant
                it.seq() == all,
                list@.len() == it.index(),
                forall|j: int| 0 <= j < it.index() ==> (Self::rejection_fn())(#[trigger] all[j]) is None,
                forall|j: int| 0 <= j < it.index() ==> (#[trigger] list@[j]).is_accepted(all[j]),
        {
            proof {
                lemma_first_rejection(all, Self::rejection_fn(), it.index() as int);
            }
            let v = Self::try_from(item)?;
            list.push(v);
        }
        proof {
            lemma_first_rejection(all, Self::rejection_fn(), all.len() as int);
        }
        Ok(list)
    }
}

/// What a subscriber states in the memorandum, as the wire has it; nothing where they state nothing.
pub open spec fn spec_memorandum_statement(
    statement: Option<ch_ewf_grpc::company_incorporation::MemorandumStatement>,
) -> Option<proto::company_incorporation::MemorandumStatement> {
    match statement {
        Some(ch_ewf_grpc::company_incorporation::MemorandumStatement::MemberWithShares) => Some(
            proto::company_incorporation::MemorandumStatement::MemberWithShares,
        ),
        Some(ch_ewf_grpc::company_incorporation::MemorandumStatement::MemberWithoutShares) => Some(
            proto::company_incorporation::MemorandumStatement::MemberWithoutShares,
        ),
        _ => None,
    }
}

/// What a subscriber states in the memorandum, as the wire has it.
pub fn memorandum_statement(stated: Option<ch_ewf_grpc::company_incorporation::MemorandumStatement>) -> (r: Option<
    proto::company_incorporation::MemorandumStatement,
>)
    ensures
        r == spec_memorandum_statement(stated),
{
    match stated {
        Some(ch_ewf_grpc::company_incorporation::MemorandumStatement::MemberWithShares) => Some(
            proto::company_incorporation::MemorandumStatement::MemberWithShares,
        ),
        Some(ch_ewf_grpc::company_incorporation::MemorandumStatement::MemberWithoutShares) => Some(
            proto::company_incorporation::MemorandumStatement::MemberWithoutShares,
        ),
        _ => None,
    }
}

/// The articles that a company adopts, as the wire names them; nothing where it adopts none.
pub open spec fn spec_articles(adopted: ch_ewf_grpc::company_incorporation::Articles) -> Option<
    proto::company_incorporation::Articles,
> {
    match adopted {
        ch_ewf_grpc::company_incorporation::Articles::NoArticles => None,
        ch_ewf_grpc::company_incorporation::Articles::ModelByShares => {
            Some(proto::company_incorporation::Articles::ModelByShares)
        },
        ch_ewf_grpc::company_incorporation::Articles::ModelByGuarantee => Some(
            proto::company_incorporation::Articles::ModelByGuarantee,
        ),
        ch_ewf_grpc::company_incorporation::Articles::ModelPlc => {
            Some(proto::company_incorporation::Articles::ModelPLC)
        },
        ch_ewf_grpc::company_incorporation::Articles::AmendedByShares => Some(
            proto::company_incorporation::Articles::AmendedByShares,
        ),
        ch_ewf_grpc::company_incorporation::Articles::AmendedByGuarantee => Some(
            proto::company_incorporation::Articles::AmendedByGuarantee,
        ),
        ch_ewf_grpc::company_incorporation::Articles::AmendedPlc => {
            Some(proto::company_incorporation::Articles::AmendedPLC)
        },
        ch_ewf_grpc::company_incorporation::Articles::Bespoke => Some(proto::company_incorporation::Articles::Bespoke),
    }
}

/// The articles that a company adopts, as the wire names them.
pub fn articles(adopted: ch_ewf_grpc::company_incorporation::Articles) -> (r: Option<
    proto::company_incorporation::Articles,
>)
    ensures
        r == spec_articles(adopted),
{
    match adopted {
        ch_ewf_grpc::company_incorporation::Articles::NoArticles => None,
        ch_ewf_grpc::company_incorporation::Articles::ModelByShares => {
            Some(proto::company_incorporation::Articles::ModelByShares)
        },
        ch_ewf_grpc::company_incorporation::Articles::ModelByGuarantee => Some(
            proto::company_incorporation::Articles::ModelByGuarantee,
        ),
        ch_ewf_grpc::company_incorporation::Articles::ModelPlc => {
            Some(proto::company_incorporation::Articles::ModelPLC)
        },
        ch_ewf_grpc::company_incorporation::Articles::AmendedByShares => Some(
            proto::company_incorporation::Articles::AmendedByShares,
        ),
        ch_ewf_grpc::company_incorporation::Articles::AmendedByGuarantee => Some(
            proto::company_incorporation::Articles::AmendedByGuarantee,
        ),
        ch_ewf_grpc::company_incorporation::Articles::AmendedPlc => {
            Some(proto::company_incorporation::Articles::AmendedPLC)
        },
        ch_ewf_grpc::company_incorporation::Articles::Bespoke => Some(proto::company_incorporation::Articles::Bespoke),
    }
}

impl proto::company_incorporation::Subscriber {
    /// Why the subscriber `s` is refused, if it is: for the first check, in order, that it fails.
    pub open spec fn rejection(s: ch_ewf_grpc::company_incorporation::Subscriber) -> Option<Seq<char>> {
        unless(s.allotments@.len() != 0, "Subscriber shares required"@)
            .otherwise(
                match s.person {
                    Some(person) => proto::company_incorporation::IncorporationPerson::rejection(person),
                    None => Some("Subscriber person required"@),
                },
            )
            .otherwise(first_rejection(s.allotments@, proto::base_types::Allotment::rejection_fn()))
    }

    /// Whether `self` is the subscriber `s` as it goes on the wire.
    pub open spec fn is_accepted(self, s: ch_ewf_grpc::company_incorporation::Subscriber) -> bool {
        &&& s.person matches Some(person)
        &&& self.person.is_accepted(person)
        &&& proto::base_types::Allotment::are_accepted(self.shares@, s.allotments@)
        &&& self.memorandum_statement == spec_memorandum_statement(s.memorandum_statement)
    }

    pub fn try_from(s: ch_ewf_grpc::company_incorporation::Subscriber) -> (r: Result<Self, ServiceError>)
        ensures
            match Self::rejection(s) {
                Some(message) => rejected(r, message),
                None => r matches Ok(v) && v.is_accepted(s),
            },
    {
        if s.allotments.len() == 0 {
            return invalid_argument("Subscriber shares required");
        }
        let person = match s.person {
            Some(person) => proto::company_incorporation::IncorporationPerson::try_from(person)?,
            None => {
                return invalid_argument("Subscriber person required");
            },
        };
        let shares = proto::base_types::Allotment::try_from_all(s.allotments)?;
        Ok(
            proto::company_incorporation::Subscriber {
                person,
                shares,
                memorandum_statement: memorandum_statement(s.memorandum_statement),
            },
        )
    }

    /// `rejection` as a function.
    pub open spec fn rejection_fn() -> spec_fn(ch_ewf_grpc::company_incorporation::Subscriber) -> Option<Seq<char>> {
        |s: ch_ewf_grpc::company_incorporation::Subscriber| Self::rejection(s)
    }

    /// Whether `list` holds the items of `items`, each as it goes on the wire, in order.
    pub open spec fn are_accepted(list: Seq<Self>, items: Seq<ch_ewf_grpc::company_incorporation::Subscriber>) -> bool {
        list.len() == items.len() && forall|i: int|
            0 <= i < list.len() ==> (#[trigger] list[i]).is_accepted(items[i])
    }

    /// Checks the items in order and stops at the first that is refused.
    pub fn try_from_all(
        items: Vec<ch_ewf_grpc::company_incorporation::Subscriber>,
    ) -> (r: Result<Vec<Self>, ServiceError>)
        ensures
            match first_rejection(items@, Self::rejection_fn()) {
                Some(message) => rejected(r, message),
                None => r matches Ok(list) && Self::are_accepted(list@, items@),
            },
    {
        let mut list: Vec<Self> = Vec::new();
        let ghost all = items@;
        for item in it: items
            invariant
                it.seq() == all,
                list@.len() == it.index(),
                forall|j: int| 0 <= j < it.index() ==> (Self::rejection_fn())(#[trigger] all[j]) is None,
                forall|j: int| 0 <= j < it.index() ==> (#[trigger] list@[j]).is_accepted(all[j]),
        {
            proof {
                lemma_first_rejection(all, Self::rejection_fn(), it.index() as int);
            }
            let v = Self::try_from(item)?;
            list.push(v);
        }
        proof {
            lemma_first_rejection(all, Self::rejection_fn(), all.len() as int);
        }
        Ok(list)
    }
}

impl proto::company_incorporation::Guarantor {
    /// Why the guarantor `s` is refused, if it is: for the first check, in order, that it fails.
    pub open spec fn rejection(s: ch_ewf_grpc::company_incorporation::Guarantor) -> Option<Seq<char>> {
        unless(text_ok(s.amount_guaranteed@, 100), "Invalid amount guaranteed"@)
            .otherwise(
                match s.person {
                    Some(person) => proto::company_incorporation::IncorporationPerson::rejection(person),
                    None => Some("Subscriber person required"@),
                },
            )
    }

    /// Whether `self` is the guarantor `s` as it goes on the wire.
    pub open spec fn is_accepted(self, s: ch_ewf_grpc::company_incorporation::Guarantor) -> bool {
        &&& self.amount_guaranteed == s.amount_guaranteed
        &&& s.person matches Some(person)
        &&& self.person.is_accepted(person)
        &&& self.memorandum_statement == spec_memorandum_statement(s.memorandum_statement)
    }

    pub fn try_from(s: ch_ewf_grpc::company_incorporation::Guarantor) -> (r: Result<Self, ServiceError>)
        ensures
            match Self::rejection(s) {
                Some(message) => rejected(r, message),
                None => r matches Ok(v) && v.is_accepted(s),
            },
    {
        if !required_text(s.amount_guaranteed.as_str(), 100) {
            return invalid_argument("Invalid amount guaranteed");
        }
        let person = match s.person {
            Some(person) => proto::company_incorporation::IncorporationPerson::try_from(person)?,
            None => {
                return invalid_argument("Subscriber person required");
            },
        };
        Ok(
            proto::company_incorporation::Guarantor {
                amount_guaranteed: s.amount_guaranteed,
                person,
                memorandum_statement: memorandum_statement(s.memorandum_statement),
            },
        )
    }

    /// `rejection` as a function.
    pub open spec fn rejection_fn() -> spec_fn(ch_ewf_grpc::company_incorporation::Guarantor) -> Option<Seq<char>> {
        |s: ch_ewf_grpc::company_incorporation::Guarantor| Self::rejection(s)
    }

    /// Whether `list` holds the items of `items`, each as it goes on the wire, in order.
    pub open spec fn are_accepted(list: Seq<Self>, items: Seq<ch_ewf_grpc::company_incorporation::Guarantor>) -> bool {
        list.len() == items.len() && forall|i: int|
            0 <= i < list.len() ==> (#[trigger] list[i]).is_accepted(items[i])
    }

    /// Checks the items in order and stops at the first that is refused.
    pub fn try_from_all(
        items: Vec<ch_ewf_grpc::company_incorporation::Guarantor>,
    ) -> (r: Result<Vec<Self>, ServiceError>)
        ensures
            match first_rejection(items@, Self::rejection_fn()) {
                Some(message) => rejected(r, message),
                None => r matches Ok(list) && Self::are_accepted(list@, items@),
            },
    {
        let mut list: Vec<Self> = Vec::new();
        let ghost all = items@;
        for item in it: items
            invariant
                it.seq() == all,
                list@.len() == it.index(),
                forall|j: int| 0 <= j < it.index() ==> (Self::rejection_fn())(#[trigger] all[j]) is None,
                forall|j: int| 0 <= j < it.index() ==> (#[trigger] list@[j]).is_accepted(all[j]),
        {
            proof {
                lemma_first_rejection(all, Self::rejection_fn(), it.index() as int);
            }
            let v = Self::try_from(item)?;
            list.push(v);
        }
        proof {
            lemma_first_rejection(all, Self::rejection_fn(), all.len() as int);
        }
        Ok(list)
    }
}

impl proto::corporation_tax_information::TakenOverBusiness {
    /// Why the business taken over `t` is refused, if it is: for the first check, in order, that it fails.
    pub open spec fn rejection(t: ch_ewf_grpc::company_incorporation::TakenOverBusiness) -> Option<Seq<char>> {
        unless(text_ok(t.previous_business_name@, 100), "Invalid previous business name"@)
            .otherwise(unless(text_ok(t.previous_owner_name@, 100), "Invalid previous owner name"@))
            .otherwise(unless(optional_ok(t.previous_business_type@, 50), "Invalid previous business type"@))
            .otherwise(unless(optional_ok(t.previous_company_registration_number@, 8), "Invalid previous company registration number"@))
            .otherwise(
                match t.previous_address {
                    Some(business_address) => proto::corporation_tax_information::Address::rejection(business_address),
                    None => Some("Previous business address required"@),
                },
            )
            .otherwise(
                match t.previous_owner_address {
                    Some(owner_address) => proto::corporation_tax_information::Address::rejection(owner_address),
                    None => Some("Previous owner address required"@),
                },
            )
    }

    /// Whether `self` is the business taken over `t` as it goes on the wire.
    pub open spec fn is_accepted(self, t: ch_ewf_grpc::company_incorporation::TakenOverBusiness) -> bool {
        &&& self.previous_business.business_name == t.previous_business_name
        &&& self.previous_owner.owner_name == t.previous_owner_name
        &&& self.previous_business.business_type == optional(t.previous_business_type)
        &&& self.previous_business.company_registration_number == optional(t.previous_company_registration_number)
        &&& t.previous_address matches Some(business_address)
        &&& self.previous_business.address.is_accepted(business_address)
        &&& t.previous_owner_address matches Some(owner_address)
        &&& self.previous_owner.address.is_accepted(owner_address)
    }

    pub fn try_from(t: ch_ewf_grpc::company_incorporation::TakenOverBusiness) -> (r: Result<Self, ServiceError>)
        ensures
            match Self::rejection(t) {
                Some(message) => rejected(r, message),
                None => r matches Ok(v) && v.is_accepted(t),
            },
    {
        if !required_text(t.previous_business_name.as_str(), 100) {
            return invalid_argument("Invalid previous business name");
        }
        if !required_text(t.previous_owner_name.as_str(), 100) {
            return invalid_argument("Invalid previous owner name");
        }
        if !optional_text(t.previous_business_type.as_str(), 50) {
            return invalid_argument("Invalid previous business type");
        }
        if !optional_text(t.previous_company_registration_number.as_str(), 8) {
            return invalid_argument("Invalid previous company registration number");
        }
        let business_address = match t.previous_address {
            Some(business_address) => proto::corporation_tax_information::Address::try_from(business_address)?,
            None => {
                return invalid_argument("Previous business address required");
            },
        };
        let owner_address = match t.previous_owner_address {
            Some(owner_address) => proto::corporation_tax_information::Address::try_from(owner_address)?,
            None => {
                return invalid_argument("Previous owner address required");
            },
        };
        Ok(
            proto::corporation_tax_information::TakenOverBusiness {
                previous_business: proto::corporation_tax_information::PreviousBusiness {
                    business_name: t.previous_business_name,
                    business_type: non_empty(t.previous_business_type),
                    company_registration_number: non_empty(t.previous_company_registration_number),
                    address: business_address,
                },
                previous_owner: proto::corporation_tax_information::PreviousOwner {
                    owner_name: t.previous_owner_name,
                    address: owner_address,
                },
            },
        )
    }
}

impl proto::corporation_tax_information::PrincipalPlaceOfBusiness {
    /// Why the principal place of business `place` is refused, if it is: it holds none of its
    /// kinds, or the one it holds is refused.
    pub open spec fn rejection(
        place: Option<ch_ewf_grpc::company_incorporation::PrincipalPlaceOfBusiness>,
    ) -> Option<Seq<char>> {
        match place {
            Some(ch_ewf_grpc::company_incorporation::PrincipalPlaceOfBusiness::PrincipalPlaceOfBusinessSameAsRegisteredOffice(p)) => {
                unless(p, "Same as registered office must be true"@)
            },
            Some(ch_ewf_grpc::company_incorporation::PrincipalPlaceOfBusiness::PrincipalPlaceOfBusinessAddress(a)) => {
                proto::corporation_tax_information::Address::rejection(a)
            },
            None => Some("Principal place of business required"@),
        }
    }

    /// Whether `self` is the principal place of business `place` as it goes on the wire.
    pub open spec fn is_accepted(
        self,
        place: Option<ch_ewf_grpc::company_incorporation::PrincipalPlaceOfBusiness>,
    ) -> bool {
        match place {
            Some(ch_ewf_grpc::company_incorporation::PrincipalPlaceOfBusiness::PrincipalPlaceOfBusinessSameAsRegisteredOffice(p)) => {
                self == proto::corporation_tax_information::PrincipalPlaceOfBusiness::SameAsRegisteredOffice(true)
            },
            Some(ch_ewf_grpc::company_incorporation::PrincipalPlaceOfBusiness::PrincipalPlaceOfBusinessAddress(a)) => {
                self matches proto::corporation_tax_information::PrincipalPlaceOfBusiness::Address(got) && got.is_accepted(a)
            },
            None => false,
        }
    }

    pub fn try_from(
        place: Option<ch_ewf_grpc::company_incorporation::PrincipalPlaceOfBusiness>,
    ) -> (r: Result<Self, ServiceError>)
        ensures
            match Self::rejection(place) {
                Some(message) => rejected(r, message),
                None => r matches Ok(v) && v.is_accepted(place),
            },
    {
        match place {
            Some(ch_ewf_grpc::company_incorporation::PrincipalPlaceOfBusiness::PrincipalPlaceOfBusinessSameAsRegisteredOffice(p)) => {
                if !p {
                    return invalid_argument("Same as registered office must be true");
                }
                Ok(proto::corporation_tax_information::PrincipalPlaceOfBusiness::SameAsRegisteredOffice(true))
            },
            Some(ch_ewf_grpc::company_incorporation::PrincipalPlaceOfBusiness::PrincipalPlaceOfBusinessAddress(a)) => {
                Ok(
                    proto::corporation_tax_information::PrincipalPlaceOfBusiness::Address(
                        proto::corporation_tax_information::Address::try_from(a)?,
                    ),
                )
            },
            None => invalid_argument("Principal place of business required"),
        }
    }
}

impl proto::corporation_tax_information::CorporationTaxInformation {
    /// Why the registration for corporation tax `tax` is refused, if it is: for the first check, in
    /// order, that it fails.
    pub open spec fn rejection(
        tax: ch_ewf_grpc::company_incorporation::CorporationTaxRegistration,
    ) -> Option<Seq<char>> {
        unless(optional_ok(tax.abbreviated_company_name@, 56), "Invalid abbreviated company name"@)
            .otherwise(unless(tax.first_accounting_period_start_date is Some, "First accounting period start date required"@))
            .otherwise(unless(tax.accounts_made_up_date is Some, "Accounts made up date required"@))
            .otherwise(proto::corporation_tax_information::PrincipalPlaceOfBusiness::rejection(tax.principal_place_of_business))
            .otherwise(
                match tax.taken_over_business {
                    Some(taken_over_business) => {
                        proto::corporation_tax_information::TakenOverBusiness::rejection(taken_over_business)
                    },
                    None => None,
                },
            )
    }

    /// Whether `self` is the registration for corporation tax `tax` as it goes on the wire.
    pub open spec fn is_accepted(self, tax: ch_ewf_grpc::company_incorporation::CorporationTaxRegistration) -> bool {
        &&& self.abbreviated_company_name == optional(tax.abbreviated_company_name)
        &&& tax.first_accounting_period_start_date == Some(self.first_accounting_period_start_date)
        &&& tax.accounts_made_up_date == Some(self.accounts_made_up_date)
        &&& self.ct61_may_apply == tax.ct61_may_apply
        &&& self.principal_place_of_business.is_accepted(tax.principal_place_of_business)
        &&& match tax.taken_over_business {
            Some(taken_over_business) => {
                self.taken_over_business matches Some(got_taken_over_business) && got_taken_over_business.is_accepted(taken_over_business)
            },
            None => self.taken_over_business is None,
        }
    }

    pub fn try_from(
        tax: ch_ewf_grpc::company_incorporation::CorporationTaxRegistration,
    ) -> (r: Result<Self, ServiceError>)
        ensures
            match Self::rejection(tax) {
                Some(message) => rejected(r, message),
                None => r matches Ok(v) && v.is_accepted(tax),
            },
    {
        if !optional_text(tax.abbreviated_company_name.as_str(), 56) {
            return invalid_argument("Invalid abbreviated company name");
        }
        let first_accounting_period_start_date = match tax.first_accounting_period_start_date {
            Some(d) => d,
            None => {
                return invalid_argument("First accounting period start date required");
            },
        };
        let accounts_made_up_date = match tax.accounts_made_up_date {
            Some(d) => d,
            None => {
                return invalid_argument("Accounts made up date required");
            },
        };
        let principal_place_of_business = proto::corporation_tax_information::PrincipalPlaceOfBusiness::try_from(
            tax.principal_place_of_business,
        )?;
        let taken_over_business = match tax.taken_over_business {
            Some(taken_over_business) => {
                Some(proto::corporation_tax_information::TakenOverBusiness::try_from(taken_over_business)?)
            },
            None => None,
        };
        Ok(
            proto::corporation_tax_information::CorporationTaxInformation {
                abbreviated_company_name: non_empty(tax.abbreviated_company_name),
                first_accounting_period_start_date,
                accounts_made_up_date,
                ct61_may_apply: tax.ct61_may_apply,
                principal_place_of_business,
                taken_over_business,
            },
        )
    }
}

/// Whether `registers` names the register `wanted`.
pub open spec fn spec_holds(
    registers: Seq<Option<ch_ewf_grpc::base_types::Register>>,
    wanted: ch_ewf_grpc::base_types::Register,
) -> bool {
    exists|i: int| 0 <= i < registers.len() && #[trigger] registers[i] == Some(wanted)
}

/// Whether `registers` names the register `wanted`.
pub fn holds(
    registers: &Vec<Option<ch_ewf_grpc::base_types::Register>>,
    wanted: ch_ewf_grpc::base_types::Register,
) -> (r:
    bool)
    ensures
        r == spec_holds(registers@, wanted),
{
    let mut i: usize = 0;
    while i < registers.len()
        invariant
            i <= registers.len(),
            forall|j: int| 0 <= j < i ==> #[trigger] registers@[j] != Some(wanted),
        decreases registers.len() - i,
    {
        match registers[i] {
            Some(register) => {
                if register == wanted {
                    return true;
                }
            },
            None => {},
        }
        i += 1;
    }
    false
}

impl proto::company_incorporation::RegistersHeldOnPublicRecord {
    /// Whether `self` says which of the registers are kept at the registry,
    /// going by the registers that `registers` names; a register that is
    /// not named is passed over. A partnership keeps the usual residential
    /// addresses of its members where it keeps the register of its members:
    /// naming the register of members elects both, and naming the register
    /// of their addresses by itself elects nothing.
    pub open spec fn is_from(self, registers: Seq<Option<ch_ewf_grpc::base_types::Register>>) -> bool {
        &&& self.directors == spec_holds(registers, ch_ewf_grpc::base_types::Register::Directors)
        &&& self.directors_ura == spec_holds(
            registers,
            ch_ewf_grpc::base_types::Register::DirectorsUsualResidentialAddress,
        )
        &&& self.secretaries == spec_holds(registers, ch_ewf_grpc::base_types::Register::Secretaries)
        &&& self.members == spec_holds(registers, ch_ewf_grpc::base_types::Register::Members)
        &&& self.llp_members == spec_holds(registers, ch_ewf_grpc::base_types::Register::LlpMembers)
        &&& self.llp_members_ura == spec_holds(registers, ch_ewf_grpc::base_types::Register::LlpMembers)
        &&& self.psc == (if spec_holds(registers, ch_ewf_grpc::base_types::Register::PersonsOfSignificantControl) {
            Some(proto::company_incorporation::PSCRegister { state_no_objection: true })
        } else {
            None
        })
    }

    /// Which registers are kept at the registry.
    pub fn from(registers: &Vec<Option<ch_ewf_grpc::base_types::Register>>) -> (r: Self)
        ensures
            r.is_from(registers@),
    {
        proto::company_incorporation::RegistersHeldOnPublicRecord {
            directors: holds(registers, ch_ewf_grpc::base_types::Register::Directors),
            directors_ura: holds(registers, ch_ewf_grpc::base_types::Register::DirectorsUsualResidentialAddress),
            secretaries: holds(registers, ch_ewf_grpc::base_types::Register::Secretaries),
            members: holds(registers, ch_ewf_grpc::base_types::Register::Members),
            llp_members: holds(registers, ch_ewf_grpc::base_types::Register::LlpMembers),
            llp_members_ura: holds(registers, ch_ewf_grpc::base_types::Register::LlpMembers),
            psc: if holds(registers, ch_ewf_grpc::base_types::Register::PersonsOfSignificantControl) {
                Some(proto::company_incorporation::PSCRegister { state_no_objection: true })
            } else {
                None
            },
        }
    }
}

/// Whether a company of this type is a limited liability partnership.
pub open spec fn spec_is_partnership(company_type: proto::company_incorporation::CompanyType) -> bool {
    company_type == proto::company_incorporation::CompanyType::Llp || company_type
        == proto::company_incorporation::CompanyType::LLPOnlyDesignated
}

impl proto::company_incorporation::CompanyIncorporation {
    /// Why the form `msg` is refused once its documents and what it says of itself are checked,
    /// if it is: for the first check, in order, that it fails.
    pub open spec fn rejection(msg: ch_ewf_grpc::company_incorporation::CompanyIncorporation) -> Option<Seq<char>> {
        unless(msg.company_type is Some, "Company type required"@)
            .otherwise(unless(msg.country_of_incorporation is Some, "Country of incorporation required"@))
            .otherwise(
                match msg.registered_office {
                    Some(registered_office) => proto::base_types::UKAddress::rejection(registered_office),
                    None => Some("Registered office required"@),
                },
            )
            .otherwise(unless(msg.articles is Some, "Articles type required"@))
            .otherwise(first_rejection(msg.appointments@, proto::company_incorporation::Appointment::rejection_fn()))
            .otherwise(proto::company_incorporation::PSCs::rejection(msg.psc))
            .otherwise(first_rejection(msg.statement_of_capital@, proto::base_types::Capital::rejection_fn()))
            .otherwise(first_rejection(msg.subscribers@, proto::company_incorporation::Subscriber::rejection_fn()))
            .otherwise(first_rejection(msg.guarantors@, proto::company_incorporation::Guarantor::rejection_fn()))
            .otherwise(proto::company_incorporation::Authoriser::rejection(msg.authorizer))
            .otherwise(
                match msg.reject_reference {
                    Some(r) => unless(8 <= byte_len(r@) <= 9, "Invalid reject reference"@),
                    None => None,
                },
            )
            .otherwise(first_rejection(msg.sic_codes@, sic_code_rejection_fn()))
    }

    /// Whether `self` is the form `msg` as it goes on the wire, its documents and what it says of
    /// itself apart.
    pub open spec fn is_accepted(self, msg: ch_ewf_grpc::company_incorporation::CompanyIncorporation) -> bool {
        &&& msg.company_type == Some(self.company_type)
        &&& self.cic == (msg.cic36 is Some)
        &&& if msg.registers_held_on_public_record@.len() == 0 {
            self.registers_held_on_public_record is None
        } else {
            self.registers_held_on_public_record matches Some(registers) && registers.is_from(
                msg.registers_held_on_public_record@,
            )
        }
        &&& msg.country_of_incorporation == Some(self.country_of_incorporation)
        &&& msg.registered_office matches Some(registered_office)
        &&& self.registered_office.is_accepted(registered_office)
        &&& self.data_memorandum == (msg.memorandum is None && !spec_is_partnership(self.company_type))
        &&& msg.articles matches Some(v_articles)
        &&& self.articles == spec_articles(v_articles)
        &&& self.restricted_articles == msg.restricted_articles
        &&& proto::company_incorporation::Appointment::are_accepted(self.appointments@, msg.appointments@)
        &&& self.pscs.is_accepted(msg.psc)
        &&& if msg.statement_of_capital@.len() == 0 {
            self.statement_of_capital is None
        } else {
            self.statement_of_capital matches Some(s) && proto::base_types::Capital::are_accepted(
                s.capital@,
                msg.statement_of_capital@,
            )
        }
        &&& proto::company_incorporation::Subscriber::are_accepted(self.subscribers@, msg.subscribers@)
        &&& proto::company_incorporation::Guarantor::are_accepted(self.guarantors@, msg.guarantors@)
        &&& self.authoriser.is_accepted(msg.authorizer)
        &&& self.same_day == msg.same_day
        &&& self.same_name == (msg.same_name is Some)
        &&& self.name_authorisation == (msg.name_authorization is Some)
        &&& self.reject_reference == msg.reject_reference
        &&& self.sic_codes == (if msg.sic_codes@.len() == 0 {
            None
        } else {
            Some(proto::base_types::SICCodes { codes: msg.sic_codes })
        })
        &&& self.single_member_company == msg.single_member_company
    }

    pub fn try_from(msg: ch_ewf_grpc::company_incorporation::CompanyIncorporation) -> (r: Result<Self, ServiceError>)
        ensures
            match Self::rejection(msg) {
                Some(message) => rejected(r, message),
                None => r matches Ok(v) && v.is_accepted(msg),
            },
    {
        let company_type = match msg.company_type {
            Some(d) => d,
            None => {
                return invalid_argument("Company type required");
            },
        };
        let registers_held_on_public_record = if msg.registers_held_on_public_record.len() == 0 {
            None
        } else {
            Some(proto::company_incorporation::RegistersHeldOnPublicRecord::from(&msg.registers_held_on_public_record))
        };
        let country_of_incorporation = match msg.country_of_incorporation {
            Some(d) => d,
            None => {
                return invalid_argument("Country of incorporation required");
            },
        };
        let registered_office = match msg.registered_office {
            Some(registered_office) => proto::base_types::UKAddress::try_from(registered_office)?,
            None => {
                return invalid_argument("Registered office required");
            },
        };
        let articles = match msg.articles {
            Some(v) => articles(v),
            None => {
                return invalid_argument("Articles type required");
            },
        };
        let appointments = proto::company_incorporation::Appointment::try_from_all(msg.appointments)?;
        let pscs = proto::company_incorporation::PSCs::try_from(msg.psc)?;
        let statement_of_capital = if msg.statement_of_capital.len() == 0 {
            None
        } else {
            Some(
                proto::base_types::StatementOfCapital {
                    capital: proto::base_types::Capital::try_from_all(msg.statement_of_capital)?,
                },
            )
        };
        let subscribers = proto::company_incorporation::Subscriber::try_from_all(msg.subscribers)?;
        let guarantors = proto::company_incorporation::Guarantor::try_from_all(msg.guarantors)?;
        let authoriser = proto::company_incorporation::Authoriser::try_from(msg.authorizer)?;
        match &msg.reject_reference {
            Some(r) => {
                if len(r.as_str()) < 8 || len(r.as_str()) > 9 {
                    return invalid_argument("Invalid reject reference");
                }
            },
            None => {},
        }
        let sic_codes = sic_codes(msg.sic_codes)?;
        Ok(
            proto::company_incorporation::CompanyIncorporation {
                company_type,
                cic: msg.cic36.is_some(),
                registers_held_on_public_record,
                country_of_incorporation,
                registered_office,
                data_memorandum: msg.memorandum.is_none() && company_type != proto::company_incorporation::CompanyType::Llp
                    && company_type != proto::company_incorporation::CompanyType::LLPOnlyDesignated,
                articles,
                restricted_articles: msg.restricted_articles,
                appointments,
                pscs,
                statement_of_capital,
                subscribers,
                guarantors,
                authoriser,
                same_day: msg.same_day,
                reject_reference: msg.reject_reference,
                sic_codes,
                single_member_company: msg.single_member_company,
                same_name: msg.same_name.is_some(),
                name_authorisation: msg.name_authorization.is_some(),
            },
        )
    }
}

/// How many documents `d` adds to a form: one where it is there.
pub open spec fn present(d: Option<ch_ewf_grpc::base_types::Document>) -> int {
    if d is Some {
        1
    } else {
        0
    }
}

/// Whether `documents` are the documents that come with the incorporation
/// `msg`: the memorandum, the statement on an existing name, the authority
/// for the name, the articles and the statement of a community interest
/// company, in this order, each where it is there and under its category.
pub open spec fn are_incorporation_documents(
    documents: Seq<proto::form_submission::Document>,
    msg: ch_ewf_grpc::company_incorporation::CompanyIncorporation,
) -> bool {
    let second = present(msg.memorandum);
    let third = second + present(msg.same_name);
    let fourth = third + present(msg.name_authorization);
    let fifth = fourth + present(msg.articles_doc);
    &&& documents.len() == fifth + present(msg.cic36)
    &&& msg.memorandum matches Some(d) ==> documents[0].is_accepted(d, proto::form_submission::Category::Memorandum)
    &&& msg.same_name matches Some(d) ==> documents[second].is_accepted(
        d,
        proto::form_submission::Category::NameExisting,
    )
    &&& msg.name_authorization matches Some(d) ==> documents[third].is_accepted(
        d,
        proto::form_submission::Category::NameAuthentication,
    )
    &&& msg.articles_doc matches Some(d) ==> documents[fourth].is_accepted(
        d,
        proto::form_submission::Category::Articles,
    )
    &&& msg.cic36 matches Some(d) ==> documents[fifth].is_accepted(d, proto::form_submission::Category::CIC36)
}

/// Why an incorporation is refused, if it is: for its name, for want of
/// appointments, for its documents, for what it says of itself, for the
/// form, or for the registration for corporation tax, in this order.
pub open spec fn company_incorporation_rejection(
    msg: ch_ewf_grpc::company_incorporation::CompanyIncorporation,
) -> Option<
    Seq<char>,
> {
    unless(3 <= byte_len(msg.company_name@) <= 160, "Invalid company name length"@)
        .otherwise(unless(msg.appointments@.len() != 0, "Appointments required"@))
        .otherwise(incorporation_documents_rejection(msg))
        .otherwise(incorporation_header_rejection(msg))
        .otherwise(proto::company_incorporation::CompanyIncorporation::rejection(msg))
        .otherwise(
            match msg.corporation_tax_registration {
                Some(r) => proto::corporation_tax_information::CorporationTaxInformation::rejection(r),
                None => None,
            },
        )
}

/// Whether `header` is the header of the incorporation `msg`: it names no
/// company number, type or authentication code, since there is no company yet.
pub open spec fn is_incorporation_header(
    header: proto::form_submission::FormHeader,
    msg: ch_ewf_grpc::company_incorporation::CompanyIncorporation,
    package_reference: String,
    submission_number: String,
) -> bool {
    let no_contact = msg.contact_name@.len() == 0 && msg.contact_number@.len() == 0;
    &&& header.company_number is None
    &&& header.company_type is None
    &&& header.company_name@ == uppercase(msg.company_name@)
    &&& header.company_authentication_code is None
    &&& header.package_reference == package_reference
    &&& msg.language matches Some(language)
    &&& header.language == spec_language(language)
    &&& header.form_identifier@ == "CompanyIncorporation"@
    &&& header.submission_number == submission_number
    &&& header.contact_name == (if no_contact {
        None
    } else {
        Some(msg.contact_name)
    })
    &&& header.contact_number == (if no_contact {
        None
    } else {
        Some(msg.contact_number)
    })
    &&& header.customer_reference == msg.customer_reference
}

/// Whether `t` is what has to be sent and kept for the incorporation `msg`.
pub open spec fn is_incorporation_transaction(
    t: FormTransaction,
    msg: ch_ewf_grpc::company_incorporation::CompanyIncorporation,
    package_reference: String,
    submission_number: String,
) -> bool {
    &&& t.class@ == "CompanyIncorporation"@
    &&& t.body matches GovTalkBody::FormSubmission(body)
    &&& is_incorporation_header((*body).form_header, msg, package_reference, submission_number)
    &&& msg.date_signed == Some((*body).date_signed)
    &&& (*body).form matches proto::form_submission::Form::CompanyIncorporation(form)
    &&& (*form).is_accepted(msg)
    &&& match msg.corporation_tax_registration {
        Some(r) => (*body).additional_information matches Some(
            proto::form_submission::AdditionalInformation::CorporationTaxInformation(tax),
        ) && tax.is_accepted(r),
        None => (*body).additional_information is None,
    }
    &&& are_incorporation_documents((*body).documents@, msg)
    &&& t.company_number is None
    &&& t.customer_reference == msg.customer_reference
    &&& t.submission_number == submission_number
}

/// Why the documents of an incorporation are refused, if they are.
pub open spec fn incorporation_documents_rejection(
    msg: ch_ewf_grpc::company_incorporation::CompanyIncorporation,
) -> Option<Seq<char>> {
    proto::form_submission::Document::optional_rejection(msg.memorandum)
        .otherwise(proto::form_submission::Document::optional_rejection(msg.same_name))
        .otherwise(proto::form_submission::Document::optional_rejection(msg.name_authorization))
        .otherwise(proto::form_submission::Document::optional_rejection(msg.articles_doc))
        .otherwise(proto::form_submission::Document::optional_rejection(msg.cic36))
}

/// Why an incorporation is refused for what it says of itself, if it is.
pub open spec fn incorporation_header_rejection(
    msg: ch_ewf_grpc::company_incorporation::CompanyIncorporation,
) -> Option<
    Seq<char>,
> {
    unless(msg.company_type is Some, "Company type required"@)
        .otherwise(unless(msg.language is Some, "Language required"@))
        .otherwise(unless(msg.date_signed is Some, "Date signed required"@))
}

/// Checks the documents that come with an incorporation and puts them in order.
pub fn incorporation_documents(msg: &ch_ewf_grpc::company_incorporation::CompanyIncorporation) -> (r: Result<
    Vec<proto::form_submission::Document>,
    ServiceError,
>)
    ensures
        match incorporation_documents_rejection(*msg) {
            Some(message) => rejected(r, message),
            None => r matches Ok(documents) && are_incorporation_documents(documents@, *msg),
        },
{
    let none: Vec<proto::form_submission::Document> = Vec::new();
    let one = add_document(none, &msg.memorandum, proto::form_submission::Category::Memorandum)?;
    let two = add_document(one, &msg.same_name, proto::form_submission::Category::NameExisting)?;
    let three = add_document(two, &msg.name_authorization, proto::form_submission::Category::NameAuthentication)?;
    let four = add_document(three, &msg.articles_doc, proto::form_submission::Category::Articles)?;
    let documents = add_document(four, &msg.cic36, proto::form_submission::Category::CIC36)?;
    proof {
        assert(forall|i: int| 0 <= i < one@.len() ==> two@[i] == one@[i]);
        assert(forall|i: int| 0 <= i < two@.len() ==> three@[i] == two@[i]);
        assert(forall|i: int| 0 <= i < three@.len() ==> four@[i] == three@[i]);
        assert(forall|i: int| 0 <= i < four@.len() ==> documents@[i] == four@[i]);
    }
    Ok(documents)
}

impl CHFillingService {
    /// Checks what an incorporation says of itself and puts its header
    /// together; the date on which it was signed comes with it.
    pub fn incorporation_header(
        &self,
        msg: &ch_ewf_grpc::company_incorporation::CompanyIncorporation,
        submission_number: String,
    ) -> (r: Result<(proto::form_submission::FormHeader, crate::time::Date), ServiceError>)
        ensures
            match incorporation_header_rejection(*msg) {
                Some(message) => rejected(r, message),
                None => r matches Ok((header, date_signed)) && is_incorporation_header(
                    header,
                    *msg,
                    self.package_reference,
                    submission_number,
                ) && msg.date_signed == Some(date_signed),
            },
    {
        if msg.company_type.is_none() {
            return invalid_argument("Company type required");
        }
        let language = match msg.language {
            Some(ch_ewf_grpc::form_submission::Language::English) => {
                proto::form_submission::SubmissionLanguage::English
            },
            Some(ch_ewf_grpc::form_submission::Language::Welsh) => proto::form_submission::SubmissionLanguage::Welsh,
            None => {
                return invalid_argument("Language required");
            },
        };
        let date_signed = match msg.date_signed {
            Some(d) => d,
            None => {
                return invalid_argument("Date signed required");
            },
        };
        let no_contact = msg.contact_name.as_str().is_empty() && msg.contact_number.as_str().is_empty();
        Ok(
            (
                proto::form_submission::FormHeader {
                    company_number: None,
                    company_type: None,
                    company_name: to_uppercase(msg.company_name.as_str()),
                    company_authentication_code: None,
                    package_reference: self.package_reference.clone(),
                    language,
                    form_identifier: "CompanyIncorporation".to_owned(),
                    submission_number,
                    contact_name: if no_contact {
                        None
                    } else {
                        Some(msg.contact_name.clone())
                    },
                    contact_number: if no_contact {
                        None
                    } else {
                        Some(msg.contact_number.clone())
                    },
                    customer_reference: msg.customer_reference.clone(),
                },
                date_signed,
            ),
        )
    }

    /// Checks an incorporation and puts together what has to be sent for it,
    /// under the submission number that was allocated to it.
    pub fn company_incorporation(
        &self,
        msg: ch_ewf_grpc::company_incorporation::CompanyIncorporation,
        submission_number: String,
    ) -> (r: Result<FormTransaction, ServiceError>)
        ensures
            match company_incorporation_rejection(msg) {
                Some(message) => rejected(r, message),
                None => r matches Ok(t) && is_incorporation_transaction(
                    t,
                    msg,
                    self.package_reference,
                    submission_number,
                ),
            },
    {
        let mut msg = msg;
        let name_length = len(msg.company_name.as_str());
        if name_length < 3 || name_length > 160 {
            return invalid_argument("Invalid company name length");
        }
        if msg.appointments.len() == 0 {
            return invalid_argument("Appointments required");
        }
        let documents = incorporation_documents(&msg)?;
        let (form_header, date_signed) = self.incorporation_header(&msg, submission_number.clone())?;
        let customer_reference = msg.customer_reference.clone();
        let tax = msg.corporation_tax_registration.take();
        let form = proto::company_incorporation::CompanyIncorporation::try_from(msg)?;
        let additional_information = match tax {
            Some(r) => Some(
                proto::form_submission::AdditionalInformation::CorporationTaxInformation(
                    proto::corporation_tax_information::CorporationTaxInformation::try_from(r)?,
                ),
            ),
            None => None,
        };
        Ok(
            FormTransaction {
                class: "CompanyIncorporation".to_owned(),
                body: GovTalkBody::FormSubmission(
                    Box::new(
                        proto::form_submission::FormSubmission {
                            form_header,
                            date_signed,
                            form: proto::form_submission::Form::CompanyIncorporation(Box::new(form)),
                            additional_information,
                            documents,
                        },
                    ),
                ),
                company_number: None,
                customer_reference,
                submission_number,
            },
        )
    }
}

} // verus!
