use ch_ewf::ch_ewf_grpc::base_types::{
    BaseAddress, CompanyAddress, CompanyIdentification, CompanyIdentificationValue, CorporateOfficer, DirectorPerson,
    MemberPerson, Person, PersonName, PreviousName, ResidentialAddress, ResidentialAddressValue, SecretaryPerson,
    ServiceAddress, ServiceAddressValue,
};
use ch_ewf::ch_ewf_grpc::form_submission::FormSubmission;
use ch_ewf::ch_ewf_grpc::members_data::{
    MemberName, MemberNameValue, MemberPersonName, Share, SharesHeld, SharesOrStock, SharesOrStockHeld, StockHeld,
};
use ch_ewf::ch_ewf_grpc::officer_appointment::{
    Appointment, CorporateOfficerAppointment, Director, DirectorValue, Member, MemberValue, OfficerAppointment,
    Secretary, SecretaryValue,
};
use ch_ewf::ch_ewf_grpc::psc::{
    CompanyNatureOfControls, CorporateEntity, CorporateIdentification, Individual, LegalPerson,
    LegalPersonIdentification, LlpNatureOfControls, NatureOfControls, NatureOfControlsValue, Notification,
    NotificationPsc,
};
use ch_ewf::decimal::{Decimal, MAX_AMOUNT_MICROS};
use ch_ewf::error::{ErrorCode, ServiceError};
use ch_ewf::grpc::CHFillingService;
use ch_ewf::proto;
use ch_ewf::proto::form_submission::Form;
use ch_ewf::proto::psc::{LLPNatureOfControlType, NatureOfControlType};
use ch_ewf::time::Date;

fn refused<T: std::fmt::Debug>(r: Result<T, ServiceError>, message: &str) {
    let e = r.unwrap_err();
    assert_eq!(e.code, ErrorCode::InvalidArgument);
    assert_eq!(e.message, message);
}

fn name() -> PersonName {
    PersonName { title: "Dr".to_string(), forenames: vec!["Ada".to_string(), "Mary".to_string()], surname: "Lovelace".to_string() }
}

fn address() -> CompanyAddress {
    CompanyAddress {
        base_address: Some(BaseAddress {
            premise: "1".to_string(),
            street: "High Street".to_string(),
            thoroughfare: String::new(),
            post_town: "Cardiff".to_string(),
            county: String::new(),
            country: "GB-WLS".to_string(),
            postcode: "CF14 3UZ".to_string(),
        }),
        care_of_name: String::new(),
        po_box: String::new(),
    }
}

fn service_address() -> ServiceAddress {
    ServiceAddress { value: Some(ServiceAddressValue::SameAsRegisteredOffice(true)) }
}

fn residential_address() -> ResidentialAddress {
    ResidentialAddress { value: Some(ResidentialAddressValue::SameAsServiceAddress(true)) }
}

fn director() -> DirectorPerson {
    DirectorPerson {
        person: Some(name()),
        service_address: Some(service_address()),
        date_of_birth: Some(Date { days_from_ce: 700000 }),
        nationality: "British".to_string(),
        occupation: "Mathematician".to_string(),
        country_of_residence: String::new(),
        previous_names: vec![PreviousName { forename: "Ada".to_string(), surname: "Byron".to_string() }],
        residential_address: Some(residential_address()),
    }
}

fn corporate_officer() -> CorporateOfficerAppointment {
    CorporateOfficerAppointment {
        person: Some(Person { forename: "Charles".to_string(), surname: "Babbage".to_string() }),
        corporate: Some(CorporateOfficer {
            corporate_name: "ENGINES LTD".to_string(),
            address: Some(address()),
            company_identification: Some(CompanyIdentification {
                company_identification: Some(CompanyIdentificationValue::UkRegistrationNumber("01234567".to_string())),
            }),
        }),
    }
}

#[test]
fn a_director_goes_on_the_wire_as_given() {
    let d = proto::base_types::DirectorPersonType::<proto::base_types::PersonType2>::try_from(director()).unwrap();
    assert_eq!(d.nationality, "British");
    assert_eq!(d.occupation, "Mathematician");
    assert_eq!(d.person.surname, "Lovelace");
    assert_eq!(d.person.forename, Some("Ada".to_string()));
    assert_eq!(d.person.other_forenames, Some("Mary".to_string()));
    assert!(d.service_address.same_as_registered_office);
    assert_eq!(d.date_of_birth, Date { days_from_ce: 700000 });
    assert_eq!(d.country_of_residence, None);
    assert_eq!(d.previous_names.len(), 1);
    assert_eq!(d.previous_names[0].surname, "Byron");
    assert!(d.residential_address.same_as_service_address);
}

#[test]
fn a_director_is_refused_for_the_first_rule_broken() {
    let try_from = proto::base_types::DirectorPersonType::<proto::base_types::PersonType2>::try_from;
    let mut d = director();
    d.nationality = String::new();
    d.occupation = String::new();
    refused(try_from(d), "Invalid nationality");
    let mut d = director();
    d.occupation = "x".repeat(51);
    d.person = None;
    refused(try_from(d), "Invalid occupation");
    let mut d = director();
    d.person = None;
    d.service_address = None;
    refused(try_from(d), "Person name required");
    let mut d = director();
    d.person.as_mut().unwrap().surname = String::new();
    refused(try_from(d), "Invalid surname");
    let mut d = director();
    d.service_address = None;
    d.date_of_birth = None;
    refused(try_from(d), "Service address required");
    let mut d = director();
    d.service_address = Some(ServiceAddress { value: None });
    refused(try_from(d), "Service address value required");
    let mut d = director();
    d.date_of_birth = None;
    d.country_of_residence = "x".repeat(51);
    refused(try_from(d), "Date of birth required");
    let mut d = director();
    d.country_of_residence = "x".repeat(51);
    d.previous_names[0].surname = String::new();
    refused(try_from(d), "Invalid country of residence");
    let mut d = director();
    d.previous_names[0].surname = String::new();
    d.residential_address = None;
    refused(try_from(d), "Invalid surname");
    let mut d = director();
    d.residential_address = None;
    refused(try_from(d), "Residential address required");
    let mut d = director();
    d.country_of_residence = "Wales".to_string();
    assert_eq!(try_from(d).unwrap().country_of_residence, Some("Wales".to_string()));
}

#[test]
fn secretaries_and_members() {
    let secretary =
        SecretaryPerson { person: Some(name()), service_address: Some(service_address()), previous_names: vec![] };
    let s = proto::base_types::SecretaryPersonType::<proto::base_types::PersonType2>::try_from(secretary.clone())
        .unwrap();
    assert_eq!(s.person.surname, "Lovelace");
    assert!(s.previous_names.is_empty());
    let mut bad = secretary.clone();
    bad.person = None;
    refused(
        proto::base_types::SecretaryPersonType::<proto::base_types::PersonType2>::try_from(bad),
        "Person name required",
    );
    let mut bad = secretary;
    bad.service_address = None;
    refused(
        proto::base_types::SecretaryPersonType::<proto::base_types::PersonType2>::try_from(bad),
        "Service address required",
    );
    let member = MemberPerson {
        person: Some(name()),
        service_address: Some(service_address()),
        date_of_birth: Some(Date { days_from_ce: 700000 }),
        country_of_residence: "Wales".to_string(),
        previous_names: vec![],
        residential_address: Some(residential_address()),
    };
    let m = proto::base_types::MemberPersonType::<proto::base_types::PersonType2>::try_from(member.clone()).unwrap();
    assert_eq!(m.person.surname, "Lovelace");
    assert_eq!(m.date_of_birth, Date { days_from_ce: 700000 });
    let mut bad = member;
    bad.date_of_birth = None;
    refused(
        proto::base_types::MemberPersonType::<proto::base_types::PersonType2>::try_from(bad),
        "Date of birth required",
    );
}

fn form_submission() -> FormSubmission {
    FormSubmission {
        company_number: 1234567,
        company_type: None,
        company_name: "ACME".to_string(),
        authentication_code: "123456".to_string(),
        language: None,
        contact_name: String::new(),
        contact_number: String::new(),
        customer_reference: None,
        date_signed: None,
    }
}

fn appointment(appointment: Option<Appointment>) -> OfficerAppointment {
    OfficerAppointment {
        form_submission: Some(form_submission()),
        consent_to_act: true,
        appointment_date: Some(Date { days_from_ce: 738000 }),
        appointment,
    }
}

#[test]
fn officer_appointment() {
    let request = CHFillingService::officer_appointment(appointment(Some(Appointment::Director(Director {
        director: Some(DirectorValue::Person(director())),
    }))))
    .unwrap();
    assert_eq!(request.submission_class, "OfficerAppointment");
    assert_eq!(request.form_type, "OfficerAppointment");
    assert_eq!(format!("{:?}", request.form_submission), format!("{:?}", Some(form_submission())));
    assert!(request.documents.is_empty());
    match request.form {
        Form::OfficerAppointment(form) => {
            assert!(form.consent_to_act);
            assert_eq!(form.appointment_date, Date { days_from_ce: 738000 });
            match form.appointment {
                proto::officer_appointment::AppointmentType::Director(
                    proto::base_types::DirectorAppointmentType::Person(p),
                ) => assert_eq!(p.occupation, "Mathematician"),
                other => panic!("unexpected appointment {:?}", other),
            }
        }
        other => panic!("unexpected form {:?}", other),
    }
    let request = CHFillingService::officer_appointment(appointment(Some(Appointment::Secretary(Secretary {
        secretary: Some(SecretaryValue::Corporate(corporate_officer())),
    }))))
    .unwrap();
    match request.form {
        Form::OfficerAppointment(form) => match form.appointment {
            proto::officer_appointment::AppointmentType::Secretary(
                proto::base_types::SecretaryAppointmentType::Corporate(c),
            ) => {
                assert_eq!(c.name.as_ref().unwrap().forename, "Charles");
                assert_eq!(c.corporate_officer.corporate_name, "ENGINES LTD");
                match &c.corporate_officer.address.base_address.country {
                    Some(proto::base_types::AddressCountry::Country(country)) => {
                        assert_eq!(*country, proto::base_types::AddressCountryType::Wales)
                    }
                    other => panic!("unexpected country {:?}", other),
                }
            }
            other => panic!("unexpected appointment {:?}", other),
        },
        other => panic!("unexpected form {:?}", other),
    }
    let request = CHFillingService::officer_appointment(appointment(Some(Appointment::Member(Member {
        designated: true,
        member: Some(MemberValue::Corporate(corporate_officer())),
    }))))
    .unwrap();
    match request.form {
        Form::OfficerAppointment(form) => match form.appointment {
            proto::officer_appointment::AppointmentType::Member(m) => {
                assert!(m.designated);
                assert!(matches!(m.inner, proto::base_types::MemberAppointmentTypeInner::Corporate(_)));
            }
            other => panic!("unexpected appointment {:?}", other),
        },
        other => panic!("unexpected form {:?}", other),
    }
}

#[test]
fn officer_appointment_refusals() {
    let mut a = appointment(None);
    a.consent_to_act = false;
    a.appointment_date = None;
    refused(CHFillingService::officer_appointment(a), "Consent to act must be given");
    let mut a = appointment(None);
    a.appointment_date = None;
    refused(CHFillingService::officer_appointment(a), "Appointment date required");
    refused(CHFillingService::officer_appointment(appointment(None)), "Entity to appoint must be provided");
    refused(
        CHFillingService::officer_appointment(appointment(Some(Appointment::Director(Director { director: None })))),
        "Director type required",
    );
    let mut officer = corporate_officer();
    officer.corporate = None;
    refused(
        CHFillingService::officer_appointment(appointment(Some(Appointment::Director(Director {
            director: Some(DirectorValue::Corporate(officer)),
        })))),
        "Corporate officer required",
    );
    let mut officer = corporate_officer();
    officer.person = Some(Person { forename: String::new(), surname: "B".to_string() });
    officer.corporate = None;
    refused(
        CHFillingService::officer_appointment(appointment(Some(Appointment::Director(Director {
            director: Some(DirectorValue::Corporate(officer)),
        })))),
        "Invalid forename",
    );
    let mut d = director();
    d.nationality = String::new();
    refused(
        CHFillingService::officer_appointment(appointment(Some(Appointment::Director(Director {
            director: Some(DirectorValue::Person(d)),
        })))),
        "Invalid nationality",
    );
}

#[test]
fn persons_with_significant_control() {
    let individual = Individual {
        person: Some(name()),
        service_address: Some(service_address()),
        date_of_birth: Some(Date { days_from_ce: 700000 }),
        nationality: "British".to_string(),
        country_of_residence: "Wales".to_string(),
        residential_address: Some(residential_address()),
        consent_statement: true,
    };
    let try_from = proto::psc::PSCNotificationType::<proto::base_types::PersonType2>::try_from;
    match try_from(Notification { psc: Some(NotificationPsc::Individual(individual.clone())) }).unwrap() {
        proto::psc::PSCNotificationType::Individual(i) => {
            assert_eq!(i.nationality, "British");
            assert_eq!(i.country_of_residence, Some("Wales".to_string()));
            assert_eq!(i.person.surname, "Lovelace");
            assert_eq!(i.date_of_birth, Date { days_from_ce: 700000 });
        }
        other => panic!("unexpected notification {:?}", other),
    }
    let mut bad = individual.clone();
    bad.country_of_residence = String::new();
    refused(try_from(Notification { psc: Some(NotificationPsc::Individual(bad)) }), "Invalid country of residence");
    let mut bad = individual;
    bad.person = None;
    refused(try_from(Notification { psc: Some(NotificationPsc::Individual(bad)) }), "Name required");
    let entity = CorporateEntity {
        corporate_name: "HOLDINGS LTD".to_string(),
        address: Some(address()),
        corporate_identification: Some(CorporateIdentification {
            place_registered: String::new(),
            registration_number: "42".to_string(),
            law_governed: "Companies Act".to_string(),
            legal_form: "Limited".to_string(),
            country_or_state: String::new(),
        }),
    };
    match try_from(Notification { psc: Some(NotificationPsc::Corporate(entity.clone())) }).unwrap() {
        proto::psc::PSCNotificationType::Corporate(c) => {
            assert_eq!(c.corporate_name, "HOLDINGS LTD");
            assert_eq!(c.company_identification.law_governed, "Companies Act");
            assert_eq!(c.company_identification.place_registered, None);
            assert_eq!(c.company_identification.registration_number, Some("42".to_string()));
        }
        other => panic!("unexpected notification {:?}", other),
    }
    let mut bad = entity;
    bad.corporate_identification.as_mut().unwrap().law_governed = String::new();
    assert_eq!(
        try_from(Notification { psc: Some(NotificationPsc::Corporate(bad)) }).unwrap_err().code,
        ErrorCode::InvalidArgument
    );
    let person = LegalPerson {
        name: "The Crown".to_string(),
        address: Some(address()),
        legal_person_identification: Some(LegalPersonIdentification {
            law_governed: "Common law".to_string(),
            legal_form: "Corporation sole".to_string(),
        }),
    };
    match try_from(Notification { psc: Some(NotificationPsc::LegalPerson(person)) }).unwrap() {
        proto::psc::PSCNotificationType::LegalPerson(p) => {
            assert_eq!(p.name, "The Crown");
            assert_eq!(p.legal_person_identification.legal_form, "Corporation sole");
        }
        other => panic!("unexpected notification {:?}", other),
    }
    assert_eq!(try_from(Notification { psc: None }).unwrap_err().code, ErrorCode::InvalidArgument);
}

#[test]
fn natures_of_control() {
    let company = |list: Vec<Option<NatureOfControlType>>| NatureOfControls {
        nature_of_controls: Some(NatureOfControlsValue::CompanyNatureOfControls(CompanyNatureOfControls {
            nature_of_controls: list,
        })),
    };
    match proto::psc::PSCNatureOfControls::try_from(company(vec![
        Some(NatureOfControlType::VotingRights25To50),
        Some(NatureOfControlType::OwnershipOfShares75To100),
    ]))
    .unwrap()
    {
        proto::psc::PSCNatureOfControls::NatureOfControls(n) => assert_eq!(
            n.nature_of_control,
            vec![NatureOfControlType::VotingRights25To50, NatureOfControlType::OwnershipOfShares75To100]
        ),
        other => panic!("unexpected natures {:?}", other),
    }
    refused(
        proto::psc::PSCNatureOfControls::try_from(company(vec![Some(NatureOfControlType::VotingRights25To50), None])),
        "Invalid nature of control",
    );
    refused(
        proto::psc::PSCNatureOfControls::try_from(NatureOfControls { nature_of_controls: None }),
        "Nature of controls required",
    );
    let llp = NatureOfControls {
        nature_of_controls: Some(NatureOfControlsValue::LlpNatureOfControls(LlpNatureOfControls {
            nature_of_controls: vec![Some(LLPNatureOfControlType::VotingRights50To75)],
        })),
    };
    match proto::psc::PSCNatureOfControls::try_from(llp).unwrap() {
        proto::psc::PSCNatureOfControls::LLPNatureOfControls(n) => {
            assert_eq!(n.nature_of_control, vec![LLPNatureOfControlType::VotingRights50To75])
        }
        other => panic!("unexpected natures {:?}", other),
    }
}

#[test]
fn members_and_what_they_hold() {
    let individual = MemberName {
        name: Some(MemberNameValue::IndividualName(MemberPersonName {
            forename: "Ada".to_string(),
            surname: "Lovelace".to_string(),
        })),
    };
    match proto::base_types::CompanyMemberName::try_from(individual).unwrap() {
        proto::base_types::CompanyMemberName::Person(p) => {
            assert_eq!(p.forename, "Ada");
            assert_eq!(p.surname, "Lovelace");
        }
        other => panic!("unexpected name {:?}", other),
    }
    let corporate = MemberName { name: Some(MemberNameValue::CorporateName("HOLDINGS".to_string())) };
    assert!(matches!(
        proto::base_types::CompanyMemberName::try_from(corporate).unwrap(),
        proto::base_types::CompanyMemberName::CorporateName(n) if n == "HOLDINGS"
    ));
    assert_eq!(
        proto::base_types::CompanyMemberName::try_from(MemberName { name: None }).unwrap_err().code,
        ErrorCode::InvalidArgument
    );
    let shares = |n: i128| SharesOrStockHeld {
        shares_or_stock: Some(SharesOrStock::Shares(SharesHeld {
            share: Some(Share {
                num_shares: Decimal { micros: n },
                share_class: "ORDINARY".to_string(),
                share_reference: String::new(),
            }),
            amount_paid_up: Decimal { micros: 1000000 },
        })),
    };
    match proto::base_types::StocksOrSharesHeld::try_from(shares(5000000)).unwrap() {
        proto::base_types::StocksOrSharesHeld::SharesHeld(s) => {
            assert_eq!(s.shares.num_shares, Decimal { micros: 5000000 });
            assert_eq!(s.shares.share_class, "ORDINARY");
            assert_eq!(s.shares.share_reference, None);
            assert_eq!(s.paid_up, Decimal { micros: 1000000 });
        }
        other => panic!("unexpected holding {:?}", other),
    }
    assert_eq!(
        proto::base_types::StocksOrSharesHeld::try_from(shares(MAX_AMOUNT_MICROS + 1)).unwrap_err().code,
        ErrorCode::InvalidArgument
    );
    let stock = SharesOrStockHeld {
        shares_or_stock: Some(SharesOrStock::Stock(StockHeld {
            stock_class: "A".to_string(),
            amount_held: Decimal { micros: 2000000 },
            currency: "GBP".to_string(),
        })),
    };
    match proto::base_types::StocksOrSharesHeld::try_from(stock).unwrap() {
        proto::base_types::StocksOrSharesHeld::StocksHeld(s) => {
            assert_eq!(s.stock_class, "A");
            assert_eq!(s.amount_held, Decimal { micros: 2000000 });
            assert_eq!(s.currency, Some("GBP".to_string()));
        }
        other => panic!("unexpected holding {:?}", other),
    }
    assert_eq!(
        proto::base_types::StocksOrSharesHeld::try_from(SharesOrStockHeld { shares_or_stock: None })
            .unwrap_err()
            .code,
        ErrorCode::InvalidArgument
    );
}
