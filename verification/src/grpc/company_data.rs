//! Asking the registry for a company's data and reporting what it answers.

use vstd::prelude::*;
use vstd::string::*;
use crate::ch_ewf_grpc;
use crate::error::{ErrorCode, ServiceError};
use crate::gov_talk::{GovTalkErrors, GovTalkResponse};
use crate::grpc::submission::{declined, declined_message, mismatched, renamed, spec_company_type};
use crate::grpc::CHFillingService;
use crate::proto;
use crate::proto::govtalk::GovTalkBody;
use crate::rules::{are_named, or_empty, rejected, text_or_empty, unless};
use crate::text::byte_len;
use crate::time::{today, Date};

verus! {

impl ch_ewf_grpc::psc::IndividualIdentification {
    /// Whether `self` is the reply for the identification `i`.
    pub open spec fn is_from(self, i: proto::psc::PSCIdentification) -> bool {
        &&& self.name matches Some(got_name)
        &&& got_name.is_from(i.name)
        &&& self.partial_dob == (match i.partial_dob {
            Some(d) => Some(ch_ewf_grpc::base_types::PartialDob { month: d.month, year: d.year }),
            None => None,
        })
    }

    pub fn from(i: proto::psc::PSCIdentification) -> (r: Self)
        ensures
            r.is_from(i),
    {
        ch_ewf_grpc::psc::IndividualIdentification {
            name: Some(ch_ewf_grpc::base_types::PersonName::from(i.name)),
            partial_dob: match i.partial_dob {
                Some(d) => Some(ch_ewf_grpc::base_types::PartialDob { month: d.month, year: d.year }),
                None => None,
            },
        }
    }
}

impl ch_ewf_grpc::psc::LinkedStatement {
    /// Whether `self` is the reply for the linked statement `l`.
    pub open spec fn is_from(self, l: proto::psc::PSCLinkedStatement) -> bool {
        &&& self.statement == Some(l.statement)
        &&& self.psc matches Some(value)
        &&& match l.entity {
            proto::psc::PSCLinkedStatementEntity::Individual(i) => {
                value matches ch_ewf_grpc::psc::LinkedStatementPsc::Individual(got) && got.is_from(i)
            },
            proto::psc::PSCLinkedStatementEntity::Corporate(n) => {
                value == ch_ewf_grpc::psc::LinkedStatementPsc::CorporateName(n.corporate_name)
            },
            proto::psc::PSCLinkedStatementEntity::LegalPerson(n) => {
                value == ch_ewf_grpc::psc::LinkedStatementPsc::LegalPersonName(n.legal_person_name)
            },
            proto::psc::PSCLinkedStatementEntity::SuperSecureIndividual(n) => {
                value == ch_ewf_grpc::psc::LinkedStatementPsc::SuperSecureIndividual(n)
            },
        }
    }

    pub fn from(l: proto::psc::PSCLinkedStatement) -> (r: Self)
        ensures
            r.is_from(l),
    {
        ch_ewf_grpc::psc::LinkedStatement {
            psc: Some(
                match l.entity {
                    proto::psc::PSCLinkedStatementEntity::Individual(i) => {
                        ch_ewf_grpc::psc::LinkedStatementPsc::Individual(
                            ch_ewf_grpc::psc::IndividualIdentification::from(i),
                        )
                    },
                    proto::psc::PSCLinkedStatementEntity::Corporate(n) => {
                        ch_ewf_grpc::psc::LinkedStatementPsc::CorporateName(n.corporate_name)
                    },
                    proto::psc::PSCLinkedStatementEntity::LegalPerson(n) => {
                        ch_ewf_grpc::psc::LinkedStatementPsc::LegalPersonName(n.legal_person_name)
                    },
                    proto::psc::PSCLinkedStatementEntity::SuperSecureIndividual(n) => {
                        ch_ewf_grpc::psc::LinkedStatementPsc::SuperSecureIndividual(n)
                    },
                },
            ),
            statement: Some(l.statement),
        }
    }
}

impl ch_ewf_grpc::psc::CorporateIdentification {
    /// Whether `self` is the reply for the identification `i`.
    pub open spec fn is_from(self, i: proto::psc::PSCCorporateIdentification) -> bool {
        &&& self.place_registered@ == text_or_empty(i.place_registered)
        &&& self.registration_number@ == text_or_empty(i.registration_number)
        &&& self.law_governed == i.law_governed
        &&& self.legal_form == i.legal_form
        &&& self.country_or_state@ == text_or_empty(i.country_or_state)
    }

    pub fn from(i: proto::psc::PSCCorporateIdentification) -> (r: Self)
        ensures
            r.is_from(i),
    {
        ch_ewf_grpc::psc::CorporateIdentification {
            place_registered: or_empty(i.place_registered),
            registration_number: or_empty(i.registration_number),
            law_governed: i.law_governed,
            legal_form: i.legal_form,
            country_or_state: or_empty(i.country_or_state),
        }
    }
}

impl ch_ewf_grpc::psc::CorporateEntity {
    /// Whether `self` is the reply for the corporate entity `n`.
    pub open spec fn is_from(self, n: proto::psc::PSCCorporateEntity) -> bool {
        &&& self.corporate_name == n.corporate_name
        &&& self.address matches Some(got_address)
        &&& got_address.is_from(n.address)
        &&& self.corporate_identification matches Some(got_corporate_identification)
        &&& got_corporate_identification.is_from(n.company_identification)
    }

    pub fn from(n: proto::psc::PSCCorporateEntity) -> (r: Self)
        ensures
            r.is_from(n),
    {
        ch_ewf_grpc::psc::CorporateEntity {
            corporate_name: n.corporate_name,
            address: Some(ch_ewf_grpc::base_types::CompanyAddress::from(n.address)),
            corporate_identification: Some(ch_ewf_grpc::psc::CorporateIdentification::from(n.company_identification)),
        }
    }
}

impl ch_ewf_grpc::psc::LegalPerson {
    /// Whether `self` is the reply for the legal person `n`.
    pub open spec fn is_from(self, n: proto::psc::PSCLegalPerson) -> bool {
        &&& self.name == n.name
        &&& self.address matches Some(got_address)
        &&& got_address.is_from(n.address)
        &&& self.legal_person_identification == Some(
            ch_ewf_grpc::psc::LegalPersonIdentification {
                law_governed: n.legal_person_identification.law_governed,
                legal_form: n.legal_person_identification.legal_form,
            },
        )
    }

    pub fn from(n: proto::psc::PSCLegalPerson) -> (r: Self)
        ensures
            r.is_from(n),
    {
        ch_ewf_grpc::psc::LegalPerson {
            name: n.name,
            address: Some(ch_ewf_grpc::base_types::CompanyAddress::from(n.address)),
            legal_person_identification: Some(
                ch_ewf_grpc::psc::LegalPersonIdentification {
                    law_governed: n.legal_person_identification.law_governed,
                    legal_form: n.legal_person_identification.legal_form,
                },
            ),
        }
    }
}

impl ch_ewf_grpc::psc::Individual {
    /// Whether `self` is the reply for the individual `n`.
    pub open spec fn is_from(self, n: proto::psc::PSCIndividual<proto::base_types::PersonReturnType>) -> bool {
        &&& self.person matches Some(got_person)
        &&& got_person.is_from_return_type(n.person)
        &&& self.service_address matches Some(got_service_address)
        &&& got_service_address.is_from(n.service_address)
        &&& self.residential_address matches Some(got_residential_address)
        &&& got_residential_address.is_from(n.residential_address)
        &&& self.date_of_birth == Some(n.date_of_birth)
        &&& self.country_of_residence@ == text_or_empty(n.country_of_residence)
        &&& self.nationality == n.nationality
        &&& self.consent_statement == false
    }

    pub fn from(n: proto::psc::PSCIndividual<proto::base_types::PersonReturnType>) -> (r: Self)
        ensures
            r.is_from(n),
    {
        ch_ewf_grpc::psc::Individual {
            person: Some(ch_ewf_grpc::base_types::PersonName::from_return_type(n.person)),
            service_address: Some(ch_ewf_grpc::base_types::ServiceAddress::from(n.service_address)),
            residential_address: Some(ch_ewf_grpc::base_types::ResidentialAddress::from(n.residential_address)),
            date_of_birth: Some(n.date_of_birth),
            country_of_residence: or_empty(n.country_of_residence),
            nationality: n.nationality,
            consent_statement: false,
        }
    }
}

impl ch_ewf_grpc::psc::Notification {
    /// Whether `self` is the reply for the notification `n`.
    pub open spec fn is_from(self, n: proto::psc::PSCNotificationType<proto::base_types::PersonReturnType>) -> bool {
        &&& self.psc matches Some(value)
        &&& match n {
            proto::psc::PSCNotificationType::Corporate(c) => {
                value matches ch_ewf_grpc::psc::NotificationPsc::Corporate(got) && got.is_from(c)
            },
            proto::psc::PSCNotificationType::LegalPerson(c) => {
                value matches ch_ewf_grpc::psc::NotificationPsc::LegalPerson(got) && got.is_from(c)
            },
            proto::psc::PSCNotificationType::Individual(c) => {
                value matches ch_ewf_grpc::psc::NotificationPsc::Individual(got) && got.is_from((*c))
            },
        }
    }

    pub fn from(n: proto::psc::PSCNotificationType<proto::base_types::PersonReturnType>) -> (r: Self)
        ensures
            r.is_from(n),
    {
        ch_ewf_grpc::psc::Notification {
            psc: Some(
                match n {
                    proto::psc::PSCNotificationType::Corporate(c) => {
                        ch_ewf_grpc::psc::NotificationPsc::Corporate(ch_ewf_grpc::psc::CorporateEntity::from(c))
                    },
                    proto::psc::PSCNotificationType::LegalPerson(c) => {
                        ch_ewf_grpc::psc::NotificationPsc::LegalPerson(ch_ewf_grpc::psc::LegalPerson::from(c))
                    },
                    proto::psc::PSCNotificationType::Individual(c) => {
                        ch_ewf_grpc::psc::NotificationPsc::Individual(ch_ewf_grpc::psc::Individual::from((*c)))
                    },
                },
            ),
        }
    }
}

/// The values of `items`, each held as named.
pub fn all_some<E>(items: Vec<E>) -> (r: Vec<Option<E>>)
    ensures
        are_named(items@, r@),
{
    let mut list: Vec<Option<E>> = Vec::new();
    let ghost all = items@;
    for item in it: items
        invariant
            it.seq() == all,
            list@.len() == it.index(),
            forall|j: int| 0 <= j < it.index() ==> list@[j] == Some(#[trigger] all[j]),
    {
        list.push(Some(item));
    }
    list
}

impl ch_ewf_grpc::psc::NatureOfControls {
    /// Whether `self` is the reply for the natures of control `n`.
    pub open spec fn is_from(self, n: proto::psc::PSCNatureOfControls) -> bool {
        &&& self.nature_of_controls matches Some(value)
        &&& match n {
            proto::psc::PSCNatureOfControls::NatureOfControls(c) => value matches ch_ewf_grpc::psc::NatureOfControlsValue::CompanyNatureOfControls(got) && are_named(
                c.nature_of_control@,
                got.nature_of_controls@,
            ),
            proto::psc::PSCNatureOfControls::LLPNatureOfControls(c) => value matches ch_ewf_grpc::psc::NatureOfControlsValue::LlpNatureOfControls(got) && are_named(
                c.nature_of_control@,
                got.nature_of_controls@,
            ),
        }
    }

    pub fn from(n: proto::psc::PSCNatureOfControls) -> (r: Self)
        ensures
            r.is_from(n),
    {
        ch_ewf_grpc::psc::NatureOfControls {
            nature_of_controls: Some(
                match n {
                    proto::psc::PSCNatureOfControls::NatureOfControls(c) => ch_ewf_grpc::psc::NatureOfControlsValue::CompanyNatureOfControls(
                        ch_ewf_grpc::psc::CompanyNatureOfControls { nature_of_controls: all_some(c.nature_of_control) },
                    ),
                    proto::psc::PSCNatureOfControls::LLPNatureOfControls(c) => ch_ewf_grpc::psc::NatureOfControlsValue::LlpNatureOfControls(
                        ch_ewf_grpc::psc::LlpNatureOfControls { nature_of_controls: all_some(c.nature_of_control) },
                    ),
                },
            ),
        }
    }
}

impl ch_ewf_grpc::company_data::CompanyDataPscNotification {
    /// Whether `self` is the reply for the notification `l`.
    pub open spec fn is_from(self, l: proto::company_data::CompanyDataPSCNotification) -> bool {
        &&& self.notification matches Some(got_notification)
        &&& got_notification.is_from(l.notification)
        &&& self.nature_of_controls matches Some(got_nature_of_controls)
        &&& got_nature_of_controls.is_from(l.nature_of_control)
        &&& self.notification_date == Some(l.notification_date)
        &&& self.cessation_date == l.cessation_date
    }

    pub fn from(l: proto::company_data::CompanyDataPSCNotification) -> (r: Self)
        ensures
            r.is_from(l),
    {
        ch_ewf_grpc::company_data::CompanyDataPscNotification {
            notification: Some(ch_ewf_grpc::psc::Notification::from(l.notification)),
            nature_of_controls: Some(ch_ewf_grpc::psc::NatureOfControls::from(l.nature_of_control)),
            notification_date: Some(l.notification_date),
            cessation_date: l.cessation_date,
        }
    }
}

impl ch_ewf_grpc::company_data::CompanyPsc {
    /// Whether `self` is the reply for the person with significant control `p`.
    pub open spec fn is_from(self, p: proto::company_data::CompanyDataPSC) -> bool {
        &&& self.psc matches Some(value)
        &&& match p {
            proto::company_data::CompanyDataPSC::StatementNotification(n) => {
                value == ch_ewf_grpc::company_data::CompanyPscValue::StatementNotification(n)
            },
            proto::company_data::CompanyDataPSC::SuperSecureIndividual(s) => {
                value == ch_ewf_grpc::company_data::CompanyPscValue::SuperSecureIndividual(s)
            },
            proto::company_data::CompanyDataPSC::LinkedStatementNotification(l) => {
                value matches ch_ewf_grpc::company_data::CompanyPscValue::LinkedStatementNotification(got) && got.is_from(l)
            },
            proto::company_data::CompanyDataPSC::Notification(l) => {
                value matches ch_ewf_grpc::company_data::CompanyPscValue::Notification(got) && got.is_from((*l))
            },
        }
    }

    pub fn from(p: proto::company_data::CompanyDataPSC) -> (r: Self)
        ensures
            r.is_from(p),
    {
        ch_ewf_grpc::company_data::CompanyPsc {
            psc: Some(
                match p {
                    proto::company_data::CompanyDataPSC::StatementNotification(n) => {
                        ch_ewf_grpc::company_data::CompanyPscValue::StatementNotification(n)
                    },
                    proto::company_data::CompanyDataPSC::SuperSecureIndividual(s) => {
                        ch_ewf_grpc::company_data::CompanyPscValue::SuperSecureIndividual(s)
                    },
                    proto::company_data::CompanyDataPSC::LinkedStatementNotification(l) => {
                        ch_ewf_grpc::company_data::CompanyPscValue::LinkedStatementNotification(
                            ch_ewf_grpc::psc::LinkedStatement::from(l),
                        )
                    },
                    proto::company_data::CompanyDataPSC::Notification(l) => {
                        ch_ewf_grpc::company_data::CompanyPscValue::Notification(
                            ch_ewf_grpc::company_data::CompanyDataPscNotification::from((*l)),
                        )
                    },
                },
            ),
        }
    }

    /// Whether `list` holds the replies for the items of `items`, in order.
    pub open spec fn are_from(list: Seq<Self>, items: Seq<proto::company_data::CompanyDataPSC>) -> bool {
        list.len() == items.len() && forall|i: int| 0 <= i < list.len() ==> (#[trigger] list[i]).is_from(items[i])
    }

    /// The replies for the items, in order.
    pub fn from_all(items: Vec<proto::company_data::CompanyDataPSC>) -> (r: Vec<Self>)
        ensures
            Self::are_from(r@, items@),
    {
        let mut list: Vec<Self> = Vec::new();
        let ghost all = items@;
        for item in it: items
            invariant
                it.seq() == all,
                list@.len() == it.index(),
                forall|j: int| 0 <= j < it.index() ==> (#[trigger] list@[j]).is_from(all[j]),
        {
            list.push(Self::from(item));
        }
        list
    }
}

impl ch_ewf_grpc::company_data::Pscs {
    /// Whether `self` is the reply for the persons with significant control `pscs`.
    pub open spec fn is_from(self, pscs: proto::company_data::CompanyDataPSCs) -> bool {
        match pscs {
            proto::company_data::CompanyDataPSCs::CompanyStatement(s) => self == ch_ewf_grpc::company_data::Pscs::PscStatement(
                s,
            ),
            proto::company_data::CompanyDataPSCs::PSCs(p) => self matches ch_ewf_grpc::company_data::Pscs::CompanyPscs(
                got,
            ) && ch_ewf_grpc::company_data::CompanyPsc::are_from(got.pscs@, p@),
        }
    }

    pub fn from(pscs: proto::company_data::CompanyDataPSCs) -> (r: Self)
        ensures
            r.is_from(pscs),
    {
        match pscs {
            proto::company_data::CompanyDataPSCs::CompanyStatement(s) => {
                ch_ewf_grpc::company_data::Pscs::PscStatement(s)
            },
            proto::company_data::CompanyDataPSCs::PSCs(p) => ch_ewf_grpc::company_data::Pscs::CompanyPscs(
                ch_ewf_grpc::company_data::CompanyPsCs { pscs: ch_ewf_grpc::company_data::CompanyPsc::from_all(p) },
            ),
        }
    }
}

impl ch_ewf_grpc::base_types::DirectorPerson {
    /// Whether `self` is the reply for the director `p`.
    pub open spec fn is_from(self, p: proto::company_data::CompanyDataDirectorPersonType) -> bool {
        &&& self.person matches Some(got_person)
        &&& got_person.is_from_return_type(p.person.person)
        &&& self.service_address matches Some(got_service_address)
        &&& got_service_address.is_from(p.person.service_address)
        &&& match p.residential_address {
            Some(v) => self.residential_address matches Some(got) && got.is_from(v),
            None => self.residential_address is None,
        }
        &&& self.date_of_birth == Some(p.person.date_of_birth)
        &&& self.country_of_residence@ == text_or_empty(p.person.country_of_residence)
        &&& self.nationality == p.person.nationality
        &&& self.occupation == p.person.occupation
        &&& ch_ewf_grpc::base_types::PreviousName::are_from(self.previous_names@, p.person.previous_names@)
    }

    pub fn from(p: proto::company_data::CompanyDataDirectorPersonType) -> (r: Self)
        ensures
            r.is_from(p),
    {
        ch_ewf_grpc::base_types::DirectorPerson {
            person: Some(ch_ewf_grpc::base_types::PersonName::from_return_type(p.person.person)),
            service_address: Some(ch_ewf_grpc::base_types::ServiceAddress::from(p.person.service_address)),
            residential_address: match p.residential_address {
                Some(v) => Some(ch_ewf_grpc::base_types::ResidentialAddress::from(v)),
                None => None,
            },
            date_of_birth: Some(p.person.date_of_birth),
            country_of_residence: or_empty(p.person.country_of_residence),
            nationality: p.person.nationality,
            occupation: p.person.occupation,
            previous_names: ch_ewf_grpc::base_types::PreviousName::from_all(p.person.previous_names),
        }
    }
}

impl ch_ewf_grpc::base_types::SecretaryPerson {
    /// Whether `self` is the reply for the secretary `p`.
    pub open spec fn is_from(
        self,
        p: proto::base_types::SecretaryPersonType<proto::base_types::PersonReturnType>,
    ) -> bool {
        &&& self.person matches Some(got_person)
        &&& got_person.is_from_return_type(p.person)
        &&& self.service_address matches Some(got_service_address)
        &&& got_service_address.is_from(p.service_address)
        &&& ch_ewf_grpc::base_types::PreviousName::are_from(self.previous_names@, p.previous_names@)
    }

    pub fn from(p: proto::base_types::SecretaryPersonType<proto::base_types::PersonReturnType>) -> (r: Self)
        ensures
            r.is_from(p),
    {
        ch_ewf_grpc::base_types::SecretaryPerson {
            person: Some(ch_ewf_grpc::base_types::PersonName::from_return_type(p.person)),
            service_address: Some(ch_ewf_grpc::base_types::ServiceAddress::from(p.service_address)),
            previous_names: ch_ewf_grpc::base_types::PreviousName::from_all(p.previous_names),
        }
    }
}

impl ch_ewf_grpc::base_types::MemberPerson {
    /// Whether `self` is the reply for the member `p`.
    pub open spec fn is_from(self, p: proto::company_data::CompanyDataMemberPersonType) -> bool {
        &&& self.person matches Some(got_person)
        &&& got_person.is_from_return_type(p.person)
        &&& self.service_address matches Some(got_service_address)
        &&& got_service_address.is_from(p.service_address)
        &&& match p.residential_address {
            Some(v) => self.residential_address matches Some(got) && got.is_from(v),
            None => self.residential_address is None,
        }
        &&& self.date_of_birth == Some(p.date_of_birth)
        &&& self.country_of_residence@ == text_or_empty(p.country_of_residence)
        &&& self.previous_names@.len() == 0
    }

    pub fn from(p: proto::company_data::CompanyDataMemberPersonType) -> (r: Self)
        ensures
            r.is_from(p),
    {
        ch_ewf_grpc::base_types::MemberPerson {
            person: Some(ch_ewf_grpc::base_types::PersonName::from_return_type(p.person)),
            service_address: Some(ch_ewf_grpc::base_types::ServiceAddress::from(p.service_address)),
            residential_address: match p.residential_address {
                Some(v) => Some(ch_ewf_grpc::base_types::ResidentialAddress::from(v)),
                None => None,
            },
            date_of_birth: Some(p.date_of_birth),
            country_of_residence: or_empty(p.country_of_residence),
            previous_names: Vec::new(),
        }
    }
}

impl ch_ewf_grpc::company_data::Director {
    /// Whether `self` is the reply for the director `o`.
    pub open spec fn is_from(self, o: proto::company_data::CompanyDataDirector) -> bool {
        &&& self.appointment_date == Some(o.appointment_date)
        &&& self.resignation_date == o.resignation_date
        &&& self.value matches Some(value)
        &&& match o.director_type {
            proto::company_data::CompanyDataDirectorType::Person(p) => {
                value matches ch_ewf_grpc::company_data::DirectorValue::Person(got) && got.is_from((*p))
            },
            proto::company_data::CompanyDataDirectorType::Corporate(c) => {
                value matches ch_ewf_grpc::company_data::DirectorValue::Corporate(got) && got.is_from((*c))
            },
        }
    }

    pub fn from(o: proto::company_data::CompanyDataDirector) -> (r: Self)
        ensures
            r.is_from(o),
    {
        ch_ewf_grpc::company_data::Director {
            value: Some(
                match o.director_type {
                    proto::company_data::CompanyDataDirectorType::Person(p) => {
                        ch_ewf_grpc::company_data::DirectorValue::Person(
                            ch_ewf_grpc::base_types::DirectorPerson::from((*p)),
                        )
                    },
                    proto::company_data::CompanyDataDirectorType::Corporate(c) => {
                        ch_ewf_grpc::company_data::DirectorValue::Corporate(
                            ch_ewf_grpc::base_types::CorporateOfficer::from((*c)),
                        )
                    },
                },
            ),
            appointment_date: Some(o.appointment_date),
            resignation_date: o.resignation_date,
        }
    }
}

impl ch_ewf_grpc::company_data::Secretary {
    /// Whether `self` is the reply for the secretary `o`.
    pub open spec fn is_from(self, o: proto::company_data::CompanyDataSecretary) -> bool {
        &&& self.appointment_date == Some(o.appointment_date)
        &&& self.resignation_date == o.resignation_date
        &&& self.value matches Some(value)
        &&& match o.secretary_type {
            proto::company_data::CompanyDataSecretaryType::Person(p) => {
                value matches ch_ewf_grpc::company_data::SecretaryValue::Person(got) && got.is_from((*p))
            },
            proto::company_data::CompanyDataSecretaryType::Corporate(c) => {
                value matches ch_ewf_grpc::company_data::SecretaryValue::Corporate(got) && got.is_from((*c))
            },
        }
    }

    pub fn from(o: proto::company_data::CompanyDataSecretary) -> (r: Self)
        ensures
            r.is_from(o),
    {
        ch_ewf_grpc::company_data::Secretary {
            value: Some(
                match o.secretary_type {
                    proto::company_data::CompanyDataSecretaryType::Person(p) => {
                        ch_ewf_grpc::company_data::SecretaryValue::Person(
                            ch_ewf_grpc::base_types::SecretaryPerson::from((*p)),
                        )
                    },
                    proto::company_data::CompanyDataSecretaryType::Corporate(c) => {
                        ch_ewf_grpc::company_data::SecretaryValue::Corporate(
                            ch_ewf_grpc::base_types::CorporateOfficer::from((*c)),
                        )
                    },
                },
            ),
            appointment_date: Some(o.appointment_date),
            resignation_date: o.resignation_date,
        }
    }
}

impl ch_ewf_grpc::company_data::Member {
    /// Whether `self` is the reply for the member `o`.
    pub open spec fn is_from(self, o: proto::company_data::CompanyDataMember) -> bool {
        &&& self.designated == o.designated
        &&& self.value matches Some(value)
        &&& match o.member_type {
            proto::company_data::CompanyDataMemberType::Person(p) => {
                value matches ch_ewf_grpc::company_data::MemberValue::Person(got) && got.is_from(p)
            },
            proto::company_data::CompanyDataMemberType::Corporate(c) => {
                value matches ch_ewf_grpc::company_data::MemberValue::Corporate(got) && got.is_from(c)
            },
        }
    }

    pub fn from(o: proto::company_data::CompanyDataMember) -> (r: Self)
        ensures
            r.is_from(o),
    {
        ch_ewf_grpc::company_data::Member {
            value: Some(
                match o.member_type {
                    proto::company_data::CompanyDataMemberType::Person(p) => {
                        ch_ewf_grpc::company_data::MemberValue::Person(ch_ewf_grpc::base_types::MemberPerson::from(p))
                    },
                    proto::company_data::CompanyDataMemberType::Corporate(c) => {
                        ch_ewf_grpc::company_data::MemberValue::Corporate(
                            ch_ewf_grpc::base_types::CorporateOfficer::from(c),
                        )
                    },
                },
            ),
            designated: o.designated,
        }
    }
}

impl ch_ewf_grpc::base_types::Shareholder {
    /// Whether `self` is the reply for the shareholder `h`.
    pub open spec fn is_from(self, h: proto::company_data::CompanyDataShareholder) -> bool {
        &&& self.address matches Some(got_address)
        &&& got_address.is_from(h.address)
        &&& self.name matches Some(value)
        &&& match h.name {
            proto::company_data::CompanyDataShareholderName::Name(n) => value == ch_ewf_grpc::base_types::ShareholderName::PartsName(
                ch_ewf_grpc::base_types::PartsName { forenames: n.forenames, surname: n.surname },
            ),
            proto::company_data::CompanyDataShareholderName::AmalgamatedName(n) => {
                value == ch_ewf_grpc::base_types::ShareholderName::AmalgamatedName(n)
            },
        }
    }

    pub fn from(h: proto::company_data::CompanyDataShareholder) -> (r: Self)
        ensures
            r.is_from(h),
    {
        ch_ewf_grpc::base_types::Shareholder {
            name: Some(
                match h.name {
                    proto::company_data::CompanyDataShareholderName::Name(n) => ch_ewf_grpc::base_types::ShareholderName::PartsName(
                        ch_ewf_grpc::base_types::PartsName { forenames: n.forenames, surname: n.surname },
                    ),
                    proto::company_data::CompanyDataShareholderName::AmalgamatedName(n) => {
                        ch_ewf_grpc::base_types::ShareholderName::AmalgamatedName(n)
                    },
                },
            ),
            address: Some(ch_ewf_grpc::base_types::BaseAddress::from(h.address)),
        }
    }

    /// Whether `list` holds the replies for the items of `items`, in order.
    pub open spec fn are_from(list: Seq<Self>, items: Seq<proto::company_data::CompanyDataShareholder>) -> bool {
        list.len() == items.len() && forall|i: int| 0 <= i < list.len() ==> (#[trigger] list[i]).is_from(items[i])
    }

    /// The replies for the items, in order.
    pub fn from_all(items: Vec<proto::company_data::CompanyDataShareholder>) -> (r: Vec<Self>)
        ensures
            Self::are_from(r@, items@),
    {
        let mut list: Vec<Self> = Vec::new();
        let ghost all = items@;
        for item in it: items
            invariant
                it.seq() == all,
                list@.len() == it.index(),
                forall|j: int| 0 <= j < it.index() ==> (#[trigger] list@[j]).is_from(all[j]),
        {
            list.push(Self::from(item));
        }
        list
    }
}

impl ch_ewf_grpc::company_data::Shareholding {
    /// Whether `self` is the reply for the shareholding `s`.
    pub open spec fn is_from(self, s: proto::company_data::CompanyDataShareholding) -> bool {
        &&& self.share_class == s.share_class
        &&& self.number_held == s.num_held
        &&& ch_ewf_grpc::base_types::Shareholder::are_from(self.shareholders@, s.shareholders@)
    }

    pub fn from(s: proto::company_data::CompanyDataShareholding) -> (r: Self)
        ensures
            r.is_from(s),
    {
        ch_ewf_grpc::company_data::Shareholding {
            share_class: s.share_class,
            number_held: s.num_held,
            shareholders: ch_ewf_grpc::base_types::Shareholder::from_all(s.shareholders),
        }
    }

    /// Whether `list` holds the replies for the items of `items`, in order.
    pub open spec fn are_from(list: Seq<Self>, items: Seq<proto::company_data::CompanyDataShareholding>) -> bool {
        list.len() == items.len() && forall|i: int| 0 <= i < list.len() ==> (#[trigger] list[i]).is_from(items[i])
    }

    /// The replies for the items, in order.
    pub fn from_all(items: Vec<proto::company_data::CompanyDataShareholding>) -> (r: Vec<Self>)
        ensures
            Self::are_from(r@, items@),
    {
        let mut list: Vec<Self> = Vec::new();
        let ghost all = items@;
        for item in it: items
            invariant
                it.seq() == all,
                list@.len() == it.index(),
                forall|j: int| 0 <= j < it.index() ==> (#[trigger] list@[j]).is_from(all[j]),
        {
            list.push(Self::from(item));
        }
        list
    }
}

impl ch_ewf_grpc::base_types::PreviousName {
    /// Whether `list` holds the replies for the items of `items`, in order.
    pub open spec fn are_from(list: Seq<Self>, items: Seq<proto::base_types::PreviousNameType>) -> bool {
        list.len() == items.len() && forall|i: int| 0 <= i < list.len() ==> (#[trigger] list[i]).is_from(items[i])
    }

    /// The replies for the items, in order.
    pub fn from_all(items: Vec<proto::base_types::PreviousNameType>) -> (r: Vec<Self>)
        ensures
            Self::are_from(r@, items@),
    {
        let mut list: Vec<Self> = Vec::new();
        let ghost all = items@;
        for item in it: items
            invariant
                it.seq() == all,
                list@.len() == it.index(),
                forall|j: int| 0 <= j < it.index() ==> (#[trigger] list@[j]).is_from(all[j]),
        {
            list.push(Self::from(item));
        }
        list
    }
}

impl ch_ewf_grpc::base_types::Capital {
    /// Whether `list` holds the replies for the items of `items`, in order.
    pub open spec fn are_from(list: Seq<Self>, items: Seq<proto::base_types::Capital>) -> bool {
        list.len() == items.len() && forall|i: int| 0 <= i < list.len() ==> (#[trigger] list[i]).is_from(items[i])
    }

    /// The replies for the items, in order.
    pub fn from_all(items: Vec<proto::base_types::Capital>) -> (r: Vec<Self>)
        ensures
            Self::are_from(r@, items@),
    {
        let mut list: Vec<Self> = Vec::new();
        let ghost all = items@;
        for item in it: items
            invariant
                it.seq() == all,
                list@.len() == it.index(),
                forall|j: int| 0 <= j < it.index() ==> (#[trigger] list@[j]).is_from(all[j]),
        {
            list.push(Self::from(item));
        }
        list
    }
}

impl ch_ewf_grpc::company_data::Director {
    /// Whether `list` holds the replies for the items of `items`, in order.
    pub open spec fn are_from(list: Seq<Self>, items: Seq<proto::company_data::CompanyDataDirector>) -> bool {
        list.len() == items.len() && forall|i: int| 0 <= i < list.len() ==> (#[trigger] list[i]).is_from(items[i])
    }

    /// The replies for the items, in order.
    pub fn from_all(items: Vec<proto::company_data::CompanyDataDirector>) -> (r: Vec<Self>)
        ensures
            Self::are_from(r@, items@),
    {
        let mut list: Vec<Self> = Vec::new();
        let ghost all = items@;
        for item in it: items
            invariant
                it.seq() == all,
                list@.len() == it.index(),
                forall|j: int| 0 <= j < it.index() ==> (#[trigger] list@[j]).is_from(all[j]),
        {
            list.push(Self::from(item));
        }
        list
    }
}

impl ch_ewf_grpc::company_data::Secretary {
    /// Whether `list` holds the replies for the items of `items`, in order.
    pub open spec fn are_from(list: Seq<Self>, items: Seq<proto::company_data::CompanyDataSecretary>) -> bool {
        list.len() == items.len() && forall|i: int| 0 <= i < list.len() ==> (#[trigger] list[i]).is_from(items[i])
    }

    /// The replies for the items, in order.
    pub fn from_all(items: Vec<proto::company_data::CompanyDataSecretary>) -> (r: Vec<Self>)
        ensures
            Self::are_from(r@, items@),
    {
        let mut list: Vec<Self> = Vec::new();
        let ghost all = items@;
        for item in it: items
            invariant
                it.seq() == all,
                list@.len() == it.index(),
                forall|j: int| 0 <= j < it.index() ==> (#[trigger] list@[j]).is_from(all[j]),
        {
            list.push(Self::from(item));
        }
        list
    }
}

impl ch_ewf_grpc::company_data::Member {
    /// Whether `list` holds the replies for the items of `items`, in order.
    pub open spec fn are_from(list: Seq<Self>, items: Seq<proto::company_data::CompanyDataMember>) -> bool {
        list.len() == items.len() && forall|i: int| 0 <= i < list.len() ==> (#[trigger] list[i]).is_from(items[i])
    }

    /// The replies for the items, in order.
    pub fn from_all(items: Vec<proto::company_data::CompanyDataMember>) -> (r: Vec<Self>)
        ensures
            Self::are_from(r@, items@),
    {
        let mut list: Vec<Self> = Vec::new();
        let ghost all = items@;
        for item in it: items
            invariant
                it.seq() == all,
                list@.len() == it.index(),
                forall|j: int| 0 <= j < it.index() ==> (#[trigger] list@[j]).is_from(all[j]),
        {
            list.push(Self::from(item));
        }
        list
    }
}

/// The kind of record as a reply names it.
pub open spec fn spec_record_type_message(value: proto::base_types::RecordType) -> ch_ewf_grpc::base_types::RecordType {
    match value {
        proto::base_types::RecordType::Directors => ch_ewf_grpc::base_types::RecordType::Directors,
        proto::base_types::RecordType::DirectorsServiceContracts => {
            ch_ewf_grpc::base_types::RecordType::DirectorsServiceContracts
        },
        proto::base_types::RecordType::DirectorsIndemnities => {
            ch_ewf_grpc::base_types::RecordType::DirectorsIndemnities
        },
        proto::base_types::RecordType::Members => ch_ewf_grpc::base_types::RecordType::Members,
        proto::base_types::RecordType::Secretaries => ch_ewf_grpc::base_types::RecordType::Secretaries,
        proto::base_types::RecordType::RegisterOfInterests => ch_ewf_grpc::base_types::RecordType::RegisterOfInterests,
        proto::base_types::RecordType::PersonsOfSignificantControl => {
            ch_ewf_grpc::base_types::RecordType::PersonsOfSignificantControl
        },
        proto::base_types::RecordType::InvestigationReports => {
            ch_ewf_grpc::base_types::RecordType::InvestigationReports
        },
        proto::base_types::RecordType::OwnShareCapital => ch_ewf_grpc::base_types::RecordType::OwnShareCapital,
        proto::base_types::RecordType::OwnSharePurchaseContracts => {
            ch_ewf_grpc::base_types::RecordType::OwnSharePurchaseContracts
        },
        proto::base_types::RecordType::RegisterOfChargesEnglandWalesAndNorthernIreland => {
            ch_ewf_grpc::base_types::RecordType::RegisterOfChargesEnglandWalesAndNorthernIreland
        },
        proto::base_types::RecordType::RegisterOfChargesScotland => {
            ch_ewf_grpc::base_types::RecordType::RegisterOfChargesScotland
        },
        proto::base_types::RecordType::DebentureHolders => ch_ewf_grpc::base_types::RecordType::DebentureHolders,
        proto::base_types::RecordType::ResolutionsAndMeetings => {
            ch_ewf_grpc::base_types::RecordType::ResolutionsAndMeetings
        },
        proto::base_types::RecordType::LLPMembers => ch_ewf_grpc::base_types::RecordType::LlpMembers,
    }
}

/// The kind of record as a reply names it.
pub fn record_type_message(value: proto::base_types::RecordType) -> (r: ch_ewf_grpc::base_types::RecordType)
    ensures
        r == spec_record_type_message(value),
{
    match value {
        proto::base_types::RecordType::Directors => ch_ewf_grpc::base_types::RecordType::Directors,
        proto::base_types::RecordType::DirectorsServiceContracts => {
            ch_ewf_grpc::base_types::RecordType::DirectorsServiceContracts
        },
        proto::base_types::RecordType::DirectorsIndemnities => {
            ch_ewf_grpc::base_types::RecordType::DirectorsIndemnities
        },
        proto::base_types::RecordType::Members => ch_ewf_grpc::base_types::RecordType::Members,
        proto::base_types::RecordType::Secretaries => ch_ewf_grpc::base_types::RecordType::Secretaries,
        proto::base_types::RecordType::RegisterOfInterests => ch_ewf_grpc::base_types::RecordType::RegisterOfInterests,
        proto::base_types::RecordType::PersonsOfSignificantControl => {
            ch_ewf_grpc::base_types::RecordType::PersonsOfSignificantControl
        },
        proto::base_types::RecordType::InvestigationReports => {
            ch_ewf_grpc::base_types::RecordType::InvestigationReports
        },
        proto::base_types::RecordType::OwnShareCapital => ch_ewf_grpc::base_types::RecordType::OwnShareCapital,
        proto::base_types::RecordType::OwnSharePurchaseContracts => {
            ch_ewf_grpc::base_types::RecordType::OwnSharePurchaseContracts
        },
        proto::base_types::RecordType::RegisterOfChargesEnglandWalesAndNorthernIreland => {
            ch_ewf_grpc::base_types::RecordType::RegisterOfChargesEnglandWalesAndNorthernIreland
        },
        proto::base_types::RecordType::RegisterOfChargesScotland => {
            ch_ewf_grpc::base_types::RecordType::RegisterOfChargesScotland
        },
        proto::base_types::RecordType::DebentureHolders => ch_ewf_grpc::base_types::RecordType::DebentureHolders,
        proto::base_types::RecordType::ResolutionsAndMeetings => {
            ch_ewf_grpc::base_types::RecordType::ResolutionsAndMeetings
        },
        proto::base_types::RecordType::LLPMembers => ch_ewf_grpc::base_types::RecordType::LlpMembers,
    }
}

/// The register as a reply names it.
pub open spec fn spec_register_message(value: proto::base_types::RegisterType) -> ch_ewf_grpc::base_types::Register {
    match value {
        proto::base_types::RegisterType::Directors => ch_ewf_grpc::base_types::Register::Directors,
        proto::base_types::RegisterType::DirectorsUsualResidentialAddress => {
            ch_ewf_grpc::base_types::Register::DirectorsUsualResidentialAddress
        },
        proto::base_types::RegisterType::Secretaries => ch_ewf_grpc::base_types::Register::Secretaries,
        proto::base_types::RegisterType::Members => ch_ewf_grpc::base_types::Register::Members,
        proto::base_types::RegisterType::PersonsOfSignificantControl => {
            ch_ewf_grpc::base_types::Register::PersonsOfSignificantControl
        },
        proto::base_types::RegisterType::LLPMembers => ch_ewf_grpc::base_types::Register::LlpMembers,
        proto::base_types::RegisterType::LLPMembersUsualResidentialAddress => {
            ch_ewf_grpc::base_types::Register::LlpMembersUsualResidentialAddress
        },
    }
}

/// The register as a reply names it.
pub fn register_message(value: proto::base_types::RegisterType) -> (r: ch_ewf_grpc::base_types::Register)
    ensures
        r == spec_register_message(value),
{
    match value {
        proto::base_types::RegisterType::Directors => ch_ewf_grpc::base_types::Register::Directors,
        proto::base_types::RegisterType::DirectorsUsualResidentialAddress => {
            ch_ewf_grpc::base_types::Register::DirectorsUsualResidentialAddress
        },
        proto::base_types::RegisterType::Secretaries => ch_ewf_grpc::base_types::Register::Secretaries,
        proto::base_types::RegisterType::Members => ch_ewf_grpc::base_types::Register::Members,
        proto::base_types::RegisterType::PersonsOfSignificantControl => {
            ch_ewf_grpc::base_types::Register::PersonsOfSignificantControl
        },
        proto::base_types::RegisterType::LLPMembers => ch_ewf_grpc::base_types::Register::LlpMembers,
        proto::base_types::RegisterType::LLPMembersUsualResidentialAddress => {
            ch_ewf_grpc::base_types::Register::LlpMembersUsualResidentialAddress
        },
    }
}

/// The kinds of the records `records`, in order, as a reply names them.
pub fn record_type_messages(records: Vec<proto::company_data::CompanyDataSAILRecord>) -> (r: Vec<
    ch_ewf_grpc::base_types::RecordType,
>)
    ensures
        r@ == records@.map_values(
            |s: proto::company_data::CompanyDataSAILRecord| spec_record_type_message(s.record_type),
        ),
{
    let mut list: Vec<ch_ewf_grpc::base_types::RecordType> = Vec::new();
    let ghost all = records@;
    for record in it: records
        invariant
            it.seq() == all,
            list@.len() == it.index(),
            forall|j: int| 0 <= j < it.index() ==> list@[j] == spec_record_type_message(all[j].record_type),
    {
        list.push(record_type_message(record.record_type));
    }
    list
}

/// The registers `registers`, in order, as a reply names them.
pub fn register_messages(registers: Vec<proto::company_data::CompanyDataRegistersHeldOnPublicRecord>) -> (r: Vec<
    ch_ewf_grpc::base_types::Register,
>)
    ensures
        r@ == registers@.map_values(
            |s: proto::company_data::CompanyDataRegistersHeldOnPublicRecord| spec_register_message(s.register_type),
        ),
{
    let mut list: Vec<ch_ewf_grpc::base_types::Register> = Vec::new();
    let ghost all = registers@;
    for register in it: registers
        invariant
            it.seq() == all,
            list@.len() == it.index(),
            forall|j: int| 0 <= j < it.index() ==> list@[j] == spec_register_message(all[j].register_type),
    {
        list.push(register_message(register.register_type));
    }
    list
}

/// The directors among `officers`, in order.
pub open spec fn directors_among(officers: Seq<proto::company_data::CompanyDataOfficer>) -> Seq<
    proto::company_data::CompanyDataDirector,
>
    decreases officers.len(),
{
    if officers.len() == 0 {
        Seq::empty()
    } else {
        match officers.last() {
            proto::company_data::CompanyDataOfficer::Director(d) => directors_among(officers.drop_last()).push(*d),
            _ => directors_among(officers.drop_last()),
        }
    }
}

/// The secretaries among `officers`, in order.
pub open spec fn secretaries_among(officers: Seq<proto::company_data::CompanyDataOfficer>) -> Seq<
    proto::company_data::CompanyDataSecretary,
>
    decreases officers.len(),
{
    if officers.len() == 0 {
        Seq::empty()
    } else {
        match officers.last() {
            proto::company_data::CompanyDataOfficer::Secretary(s) => secretaries_among(officers.drop_last()).push(s),
            _ => secretaries_among(officers.drop_last()),
        }
    }
}

/// The members among `officers`, in order.
pub open spec fn members_among(officers: Seq<proto::company_data::CompanyDataOfficer>) -> Seq<
    proto::company_data::CompanyDataMember,
>
    decreases officers.len(),
{
    if officers.len() == 0 {
        Seq::empty()
    } else {
        match officers.last() {
            proto::company_data::CompanyDataOfficer::Member(m) => members_among(officers.drop_last()).push(*m),
            _ => members_among(officers.drop_last()),
        }
    }
}

/// The officers of a company as a reply lists them: by kind.
pub struct Officers {
    pub directors: Vec<ch_ewf_grpc::company_data::Director>,
    pub secretaries: Vec<ch_ewf_grpc::company_data::Secretary>,
    pub members: Vec<ch_ewf_grpc::company_data::Member>,
}

impl Officers {
    /// Whether `self` lists the officers `officers` by kind, each kind in the order in which they came.
    pub open spec fn is_from(self, officers: Seq<proto::company_data::CompanyDataOfficer>) -> bool {
        &&& ch_ewf_grpc::company_data::Director::are_from(self.directors@, directors_among(officers))
        &&& ch_ewf_grpc::company_data::Secretary::are_from(self.secretaries@, secretaries_among(officers))
        &&& ch_ewf_grpc::company_data::Member::are_from(self.members@, members_among(officers))
    }

    /// Sorts the officers by kind.
    pub fn from(officers: Vec<proto::company_data::CompanyDataOfficer>) -> (r: Self)
        ensures
            r.is_from(officers@),
    {
        let mut directors: Vec<ch_ewf_grpc::company_data::Director> = Vec::new();
        let mut secretaries: Vec<ch_ewf_grpc::company_data::Secretary> = Vec::new();
        let mut members: Vec<ch_ewf_grpc::company_data::Member> = Vec::new();
        let ghost all = officers@;
        for officer in it: officers
            invariant
                it.seq() == all,
                ch_ewf_grpc::company_data::Director::are_from(directors@, directors_among(all.take(it.index() as int))),
                ch_ewf_grpc::company_data::Secretary::are_from(
                    secretaries@,
                    secretaries_among(all.take(it.index() as int)),
                ),
                ch_ewf_grpc::company_data::Member::are_from(members@, members_among(all.take(it.index() as int))),
        {
            proof {
                assert(all.take(it.index() + 1).drop_last() == all.take(it.index() as int));
            }
            match officer {
                proto::company_data::CompanyDataOfficer::Director(d) => {
                    directors.push(ch_ewf_grpc::company_data::Director::from(*d));
                },
                proto::company_data::CompanyDataOfficer::Secretary(s) => {
                    secretaries.push(ch_ewf_grpc::company_data::Secretary::from(s));
                },
                proto::company_data::CompanyDataOfficer::Member(m) => {
                    members.push(ch_ewf_grpc::company_data::Member::from(*m));
                },
            }
        }
        proof {
            assert(all.take(all.len() as int) == all);
        }
        Officers { directors, secretaries, members }
    }
}

impl ch_ewf_grpc::company_data::CompanyDataResponse {
    /// Whether `self` is the reply for the company's data `body`, received
    /// in the transaction `transaction_id`.
    pub open spec fn is_from(self, transaction_id: String, body: proto::company_data::CompanyData) -> bool {
        &&& self.transaction_id == transaction_id
        &&& self.company_number == body.company_number
        &&& self.company_name == body.company_name
        &&& self.category == body.company_category
        &&& self.jurisdiction == body.jurisdiction
        &&& self.trading_on_market == body.trading_on_market
        &&& self.dtr5_applies == body.dtr5_applies
        &&& self.made_up_date == Some(body.made_up_date)
        &&& self.next_due_date == body.next_due_date
        &&& self.psc_exempt_as_shared_admitted_on_market == body.psc_exempt_as_shares_admitted_on_market
        &&& self.psc_exempt_as_trading_on_regulated_market == body.psc_exempt_as_trading_on_regulated_market
        &&& self.psc_exempt_as_trading_on_uk_regulated_market
            == body.psc_exempt_as_trading_on_uk_regulated_market
        &&& self.sic_codes == body.sic_codes.codes
        &&& self.registered_office_address matches Some(office)
        &&& office.is_from(body.registered_office_address)
        &&& match body.sail_address {
            Some(a) => self.sail_address matches Some(got) && got.is_from(a),
            None => self.sail_address is None,
        }
        &&& self.sail_records@ == body.sail_records@.map_values(
            |s: proto::company_data::CompanyDataSAILRecord| spec_record_type_message(s.record_type),
        )
        &&& match body.pscs {
            Some(p) => self.pscs matches Some(got) && got.is_from(p),
            None => self.pscs is None,
        }
        &&& (Officers {
            directors: self.directors,
            secretaries: self.secretaries,
            members: self.members,
        }).is_from(body.officers.officers@)
        &&& self.held_on_public_record@ == (match body.registers {
            Some(registers) => registers.held_on_public_record@.map_values(
                |s: proto::company_data::CompanyDataRegistersHeldOnPublicRecord|
                    spec_register_message(s.register_type),
            ),
            None => Seq::empty(),
        })
        &&& match body.statement_of_captial {
            Some(s) => ch_ewf_grpc::base_types::Capital::are_from(self.statement_of_capital@, s.capital@),
            None => self.statement_of_capital@.len() == 0,
        }
        &&& ch_ewf_grpc::company_data::Shareholding::are_from(self.shareholdings@, body.shareholdings@)
    }

    pub fn from(transaction_id: String, body: proto::company_data::CompanyData) -> (r: Self)
        ensures
            r.is_from(transaction_id, body),
    {
        let officers = Officers::from(body.officers.officers);
        ch_ewf_grpc::company_data::CompanyDataResponse {
            transaction_id,
            company_number: body.company_number,
            company_name: body.company_name,
            category: body.company_category,
            jurisdiction: body.jurisdiction,
            trading_on_market: body.trading_on_market,
            dtr5_applies: body.dtr5_applies,
            made_up_date: Some(body.made_up_date),
            next_due_date: body.next_due_date,
            psc_exempt_as_shared_admitted_on_market: body.psc_exempt_as_shares_admitted_on_market,
            psc_exempt_as_trading_on_regulated_market: body.psc_exempt_as_trading_on_regulated_market,
            psc_exempt_as_trading_on_uk_regulated_market: body.psc_exempt_as_trading_on_uk_regulated_market,
            sic_codes: body.sic_codes.codes,
            registered_office_address: Some(ch_ewf_grpc::base_types::UkAddress::from(body.registered_office_address)),
            sail_address: match body.sail_address {
                Some(a) => Some(ch_ewf_grpc::base_types::UkAddress::from(a)),
                None => None,
            },
            sail_records: record_type_messages(body.sail_records),
            pscs: match body.pscs {
                Some(p) => Some(ch_ewf_grpc::company_data::Pscs::from(p)),
                None => None,
            },
            directors: officers.directors,
            secretaries: officers.secretaries,
            members: officers.members,
            held_on_public_record: match body.registers {
                Some(registers) => register_messages(registers.held_on_public_record),
                None => Vec::new(),
            },
            statement_of_capital: match body.statement_of_captial {
                Some(s) => ch_ewf_grpc::base_types::Capital::from_all(s.capital),
                None => Vec::new(),
            },
            shareholdings: ch_ewf_grpc::company_data::Shareholding::from_all(body.shareholdings),
        }
    }
}

/// A request to the registry: the transaction class and the body of the envelope.
#[derive(Debug)]
pub struct Request {
    pub class: String,
    pub body: GovTalkBody,
}

/// Why an authentication code is refused, if it is.
pub open spec fn authentication_code_rejection(code: Seq<char>) -> Option<Seq<char>> {
    unless(6 <= byte_len(code) <= 8, "Company authentication code of the wrong length"@)
}

/// What the registry's answer comes to before its body is looked at: the
/// failure that tells of a declined transaction, or the answer.
pub fn answered(result: Result<GovTalkResponse, GovTalkErrors>) -> (r: Result<GovTalkResponse, ServiceError>)
    ensures
        match result {
            Ok(response) => r == Ok::<GovTalkResponse, ServiceError>(response),
            Err(e) => r matches Err(failure) && failure.is(ErrorCode::Unknown, declined_message(e)),
        },
{
    match result {
        Ok(response) => Ok(response),
        Err(e) => Err(declined(&e)),
    }
}

impl CHFillingService {
    /// The request for a company's data as it stands made up on the date
    /// asked for, or on `today` where none is asked for.
    pub fn company_data_on(msg: ch_ewf_grpc::company_data::CompanyDataRequest, today: Date) -> (r: Result<
        Request,
        ServiceError,
    >)
        ensures
            match authentication_code_rejection(msg.authentication_code@) {
                Some(message) => rejected(r, message),
                None => {
                    &&& r matches Ok(request)
                    &&& request.class@ == "CompanyDataRequest"@
                    &&& request.body == GovTalkBody::CompanyDataRequest(
                        proto::company_data::CompanyDataRequest {
                            company_number: msg.company_number,
                            company_type: renamed(
                                msg.company_type,
                                |c: ch_ewf_grpc::base_types::CompanyType| spec_company_type(c),
                            ),
                            company_authentication_code: msg.authentication_code,
                            made_up_date: match msg.made_up_date {
                                Some(d) => d,
                                None => today,
                            },
                        },
                    )
                },
            },
    {
        match Self::check_authentication_code(msg.authentication_code.as_str()) {
            Ok(()) => {},
            Err(e) => {
                return Err(e);
            },
        }
        Ok(
            Request {
                class: "CompanyDataRequest".to_owned(),
                body: GovTalkBody::CompanyDataRequest(
                    proto::company_data::CompanyDataRequest {
                        company_number: msg.company_number,
                        company_type: Self::map_company_type(msg.company_type),
                        company_authentication_code: msg.authentication_code,
                        made_up_date: match msg.made_up_date {
                            Some(d) => d,
                            None => today,
                        },
                    },
                ),
            },
        )
    }

    /// The request for a company's data; where no date is asked for, as it stands today.
    pub fn company_data(msg: ch_ewf_grpc::company_data::CompanyDataRequest) -> (r: Result<Request, ServiceError>)
        ensures
            match authentication_code_rejection(msg.authentication_code@) {
                Some(message) => rejected(r, message),
                None => {
                    &&& r matches Ok(request)
                    &&& request.class@ == "CompanyDataRequest"@
                    &&& request.body matches GovTalkBody::CompanyDataRequest(asked)
                    &&& asked.company_number == msg.company_number
                    &&& asked.company_type == renamed(
                        msg.company_type,
                        |c: ch_ewf_grpc::base_types::CompanyType| spec_company_type(c),
                    )
                    &&& asked.company_authentication_code == msg.authentication_code
                    &&& msg.made_up_date matches Some(d) ==> asked.made_up_date == d
                },
            },
    {
        Self::company_data_on(msg, today())
    }

    /// The reply for the registry's answer to a request for a company's data.
    pub fn company_data_reply(result: Result<GovTalkResponse, GovTalkErrors>) -> (r: Result<
        ch_ewf_grpc::company_data::CompanyDataResponse,
        ServiceError,
    >)
        ensures
            match result {
                Err(e) => r matches Err(failure) && failure.is(ErrorCode::Unknown, declined_message(e)),
                Ok(response) => match response.body {
                    Some(GovTalkBody::CompanyData(d)) => r matches Ok(reply) && reply.is_from(
                        response.transaction_id,
                        *d,
                    ),
                    _ => r matches Err(failure) && failure.is(
                        ErrorCode::Internal,
                        "Mismatched response message received"@,
                    ),
                },
            },
    {
        let response = answered(result)?;
        match response.body {
            Some(GovTalkBody::CompanyData(d)) => Ok(
                ch_ewf_grpc::company_data::CompanyDataResponse::from(response.transaction_id, *d),
            ),
            _ => mismatched(),
        }
    }
}

} // verus!
