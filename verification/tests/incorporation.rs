use ch_ewf::ch_ewf_grpc::base_types::{
    ContentType, Document, Person, PersonalAttribute, PersonalAttributeType, Register, ServiceAddress,
    ServiceAddressValue, UkAddress, UkAddressCountry,
};
use ch_ewf::ch_ewf_grpc::base_types::{PersonName, SecretaryPerson};
use ch_ewf::ch_ewf_grpc::company_incorporation::{
    Appointment, Articles, Authorizer, AuthorizerValue, CompanyIncorporation, CorporationTaxRegistration,
    MemorandumStatement, PersonNameValue, PrincipalPlaceOfBusiness, PscValue,
};
use ch_ewf::ch_ewf_grpc::form_submission::Language;
use ch_ewf::ch_ewf_grpc::officer_appointment;
use ch_ewf::error::{ErrorCode, ServiceError};
use ch_ewf::gov_talk::GovTalkSender;
use ch_ewf::grpc::incorporation::{articles, holds, incorporation_documents, memorandum_statement};
use ch_ewf::grpc::CHFillingService;
use ch_ewf::proto;
use ch_ewf::proto::company_incorporation::{CompanyType, CountryOfIncorporation, NoPSCStatement};
use ch_ewf::proto::form_submission::{Category, Form};
use ch_ewf::proto::govtalk::GovTalkBody;
use ch_ewf::time::Date;

fn service() -> CHFillingService {
    CHFillingService {
        sender: GovTalkSender::new("filing@example.com", "presenter", "secret", true),
        documents_path: "/var/lib/documents".to_string(),
        presenter_id: "presenter".to_string(),
        package_reference: "0012".to_string(),
    }
}

fn refused<T: std::fmt::Debug>(r: Result<T, ServiceError>, message: &str) {
    let e = r.unwrap_err();
    assert_eq!(e.code, ErrorCode::InvalidArgument);
    assert_eq!(e.message, message);
}

fn document(filename: &str) -> Document {
    Document {
        data: filename.as_bytes().to_vec(),
        date: None,
        filename: filename.to_string(),
        content_type: Some(ContentType::Pdf),
    }
}

fn attributes() -> Vec<PersonalAttribute> {
    vec![
        PersonalAttribute { personal_attribute: Some(PersonalAttributeType::BirthTown), personal_data: "CAR".to_string() },
        PersonalAttribute { personal_attribute: Some(PersonalAttributeType::Telephone), personal_data: "123".to_string() },
        PersonalAttribute {
            personal_attribute: Some(PersonalAttributeType::PassportNumber),
            personal_data: "987".to_string(),
        },
    ]
}

fn incorporation() -> CompanyIncorporation {
    CompanyIncorporation {
        company_name: "New Venture ltd".to_string(),
        appointments: vec![Appointment {
            consent_to_act: true,
            appointment: Some(officer_appointment::Appointment::Secretary(officer_appointment::Secretary {
                secretary: Some(officer_appointment::SecretaryValue::Person(SecretaryPerson {
                    person: Some(PersonName {
                        title: String::new(),
                        forenames: vec!["Ada".to_string()],
                        surname: "Lovelace".to_string(),
                    }),
                    service_address: Some(ServiceAddress {
                        value: Some(ServiceAddressValue::SameAsRegisteredOffice(true)),
                    }),
                    previous_names: vec![],
                })),
            })),
        }],
        memorandum: None,
        same_name: None,
        name_authorization: None,
        articles_doc: None,
        cic36: None,
        company_type: Some(CompanyType::LimitedByShares),
        contact_name: String::new(),
        contact_number: String::new(),
        language: Some(Language::Welsh),
        customer_reference: Some("REF-9".to_string()),
        date_signed: Some(Date { days_from_ce: 738000 }),
        registers_held_on_public_record: vec![],
        country_of_incorporation: Some(CountryOfIncorporation::Wales),
        registered_office: Some(UkAddress {
            premise: "1".to_string(),
            street: String::new(),
            thoroughfare: String::new(),
            post_town: "Cardiff".to_string(),
            county: String::new(),
            country: Some(UkAddressCountry::Wales),
            postcode: String::new(),
            care_of_name: String::new(),
            po_box: String::new(),
        }),
        articles: Some(Articles::ModelByShares),
        restricted_articles: false,
        psc: Some(PscValue::PscStatement(Some(NoPSCStatement::NoPSC))),
        statement_of_capital: vec![],
        subscribers: vec![],
        guarantors: vec![],
        authorizer: Some(AuthorizerValue::Solicitor(Authorizer {
            name: Some(PersonNameValue::Person(Person { forename: "Sol".to_string(), surname: "Icitor".to_string() })),
            personal_attributes: attributes(),
        })),
        same_day: false,
        reject_reference: None,
        sic_codes: vec!["62010".to_string()],
        single_member_company: Some(true),
        corporation_tax_registration: None,
    }
}

#[test]
fn an_incorporation_is_put_together() {
    let t = service().company_incorporation(incorporation(), "XYZ789".to_string()).unwrap();
    assert_eq!(t.class, "CompanyIncorporation");
    assert_eq!(t.company_number, None);
    assert_eq!(t.customer_reference, Some("REF-9".to_string()));
    assert_eq!(t.submission_number, "XYZ789");
    let body = match t.body {
        GovTalkBody::FormSubmission(body) => body,
        other => panic!("unexpected body {:?}", other),
    };
    let h = &body.form_header;
    assert_eq!(h.company_number, None);
    assert_eq!(h.company_type, None);
    assert_eq!(h.company_name, "NEW VENTURE LTD");
    assert_eq!(h.company_authentication_code, None);
    assert_eq!(h.package_reference, "0012");
    assert_eq!(h.language, proto::form_submission::SubmissionLanguage::Welsh);
    assert_eq!(h.form_identifier, "CompanyIncorporation");
    assert_eq!(h.submission_number, "XYZ789");
    assert_eq!(h.contact_name, None);
    assert_eq!(h.contact_number, None);
    assert_eq!(h.customer_reference, Some("REF-9".to_string()));
    assert_eq!(body.date_signed, Date { days_from_ce: 738000 });
    assert!(body.additional_information.is_none());
    assert!(body.documents.is_empty());
    let form = match body.form {
        Form::CompanyIncorporation(form) => form,
        other => panic!("unexpected form {:?}", other),
    };
    assert_eq!(form.company_type, CompanyType::LimitedByShares);
    assert!(!form.cic);
    assert!(form.registers_held_on_public_record.is_none());
    assert_eq!(form.country_of_incorporation, CountryOfIncorporation::Wales);
    assert_eq!(form.registered_office.post_town, "Cardiff");
    assert!(form.data_memorandum);
    assert_eq!(form.articles, Some(proto::company_incorporation::Articles::ModelByShares));
    assert!(!form.restricted_articles);
    assert_eq!(form.appointments.len(), 1);
    assert!(matches!(form.pscs, proto::company_incorporation::PSCs::NoPSCStatement(NoPSCStatement::NoPSC)));
    assert!(form.statement_of_capital.is_none());
    assert!(form.subscribers.is_empty());
    assert!(form.guarantors.is_empty());
    assert!(matches!(form.authoriser, proto::company_incorporation::Authoriser::Solicitor(_)));
    assert!(!form.same_day);
    assert!(!form.same_name);
    assert!(!form.name_authorisation);
    assert_eq!(form.reject_reference, None);
    assert_eq!(form.sic_codes.unwrap().codes, vec!["62010".to_string()]);
    assert_eq!(form.single_member_company, Some(true));
}

#[test]
fn the_documents_of_an_incorporation_come_in_order() {
    let mut msg = incorporation();
    msg.cic36 = Some(document("cic"));
    msg.articles_doc = Some(document("articles"));
    msg.same_name = Some(document("same"));
    let documents = incorporation_documents(&msg).unwrap();
    assert_eq!(documents.len(), 3);
    assert_eq!(documents[0].category, Category::NameExisting);
    assert_eq!(documents[0].filename, Some("same".to_string()));
    assert_eq!(documents[1].category, Category::Articles);
    assert_eq!(documents[1].data, "YXJ0aWNsZXM=");
    assert_eq!(documents[2].category, Category::CIC36);
    msg.memorandum = Some(document("memo"));
    msg.name_authorization = Some(document("auth"));
    let documents = incorporation_documents(&msg).unwrap();
    let categories: Vec<Category> = documents.iter().map(|d| d.category).collect();
    assert_eq!(
        categories,
        vec![Category::Memorandum, Category::NameExisting, Category::NameAuthentication, Category::Articles, Category::CIC36]
    );
    let t = service().company_incorporation(msg, "XYZ789".to_string()).unwrap();
    match t.body {
        GovTalkBody::FormSubmission(body) => {
            assert_eq!(body.documents.len(), 5);
            match body.form {
                Form::CompanyIncorporation(form) => {
                    assert!(form.cic);
                    assert!(form.same_name);
                    assert!(form.name_authorisation);
                    assert!(!form.data_memorandum);
                }
                other => panic!("unexpected form {:?}", other),
            }
        }
        other => panic!("unexpected body {:?}", other),
    }
    assert!(incorporation_documents(&incorporation()).unwrap().is_empty());
    let mut msg = incorporation();
    msg.articles_doc = Some(document(&"f".repeat(33)));
    refused(incorporation_documents(&msg), "Invalid filename");
}

#[test]
fn a_partnership_sends_no_memorandum_statement() {
    for company_type in [CompanyType::Llp, CompanyType::LLPOnlyDesignated] {
        let mut msg = incorporation();
        msg.company_type = Some(company_type);
        match service().company_incorporation(msg, "XYZ789".to_string()).unwrap().body {
            GovTalkBody::FormSubmission(body) => match body.form {
                Form::CompanyIncorporation(form) => assert!(!form.data_memorandum),
                other => panic!("unexpected form {:?}", other),
            },
            other => panic!("unexpected body {:?}", other),
        }
    }
}

#[test]
fn an_incorporation_is_refused_for_the_first_rule_broken() {
    let submit = |msg: CompanyIncorporation| service().company_incorporation(msg, "XYZ789".to_string());
    let mut msg = incorporation();
    msg.company_name = "ab".to_string();
    msg.appointments = vec![];
    refused(submit(msg), "Invalid company name length");
    let mut msg = incorporation();
    msg.appointments = vec![];
    msg.memorandum = Some(document(&"f".repeat(33)));
    refused(submit(msg), "Appointments required");
    let mut msg = incorporation();
    msg.memorandum = Some(document(&"f".repeat(33)));
    msg.company_type = None;
    refused(submit(msg), "Invalid filename");
    let mut msg = incorporation();
    msg.company_type = None;
    msg.language = None;
    refused(submit(msg), "Company type required");
    let mut msg = incorporation();
    msg.language = None;
    msg.date_signed = None;
    refused(submit(msg), "Language required");
    let mut msg = incorporation();
    msg.date_signed = None;
    msg.country_of_incorporation = None;
    refused(submit(msg), "Date signed required");
    let mut msg = incorporation();
    msg.country_of_incorporation = None;
    msg.registered_office = None;
    refused(submit(msg), "Country of incorporation required");
    let mut msg = incorporation();
    msg.registered_office = None;
    msg.articles = None;
    refused(submit(msg), "Registered office required");
    let mut msg = incorporation();
    msg.registered_office.as_mut().unwrap().premise = String::new();
    refused(submit(msg), "Invalid premise");
    let mut msg = incorporation();
    msg.articles = None;
    msg.appointments[0].appointment = None;
    refused(submit(msg), "Articles type required");
    let mut msg = incorporation();
    msg.appointments[0].appointment = None;
    msg.psc = None;
    refused(submit(msg), "Appointment type required");
    let mut msg = incorporation();
    msg.appointments[0].consent_to_act = false;
    match submit(msg).unwrap().body {
        GovTalkBody::FormSubmission(body) => match body.form {
            Form::CompanyIncorporation(form) => assert!(!form.appointments[0].consent_to_act),
            other => panic!("unexpected form {:?}", other),
        },
        other => panic!("unexpected body {:?}", other),
    }
    let mut msg = incorporation();
    msg.psc = None;
    msg.authorizer = None;
    refused(submit(msg), "PSCs required");
    let mut msg = incorporation();
    msg.psc = Some(PscValue::PscStatement(None));
    refused(submit(msg), "Company level PSC statement required");
    let mut msg = incorporation();
    msg.authorizer = None;
    msg.reject_reference = Some("short".to_string());
    refused(submit(msg), "Authorizer required");
    let mut msg = incorporation();
    msg.authorizer = Some(AuthorizerValue::Member(Authorizer { name: None, personal_attributes: vec![] }));
    refused(submit(msg), "Invalid number of personal attributes");
    let mut msg = incorporation();
    msg.authorizer = Some(AuthorizerValue::Member(Authorizer { name: None, personal_attributes: attributes() }));
    refused(submit(msg), "Authorizer name required");
    let mut msg = incorporation();
    msg.reject_reference = Some("short".to_string());
    msg.sic_codes = vec!["x".to_string()];
    refused(submit(msg), "Invalid reject reference");
    let mut msg = incorporation();
    msg.reject_reference = Some("12345678".to_string());
    msg.sic_codes = vec!["x".to_string()];
    refused(submit(msg), "Invalid SIC code");
    let mut msg = incorporation();
    msg.reject_reference = Some("123456789".to_string());
    assert!(submit(msg).is_ok());
}

#[test]
fn the_registration_for_corporation_tax_comes_as_additional_information() {
    let mut msg = incorporation();
    msg.corporation_tax_registration = Some(CorporationTaxRegistration {
        abbreviated_company_name: "NEWVEN".to_string(),
        first_accounting_period_start_date: Some(Date { days_from_ce: 738001 }),
        accounts_made_up_date: Some(Date { days_from_ce: 738365 }),
        ct61_may_apply: false,
        principal_place_of_business: Some(PrincipalPlaceOfBusiness::PrincipalPlaceOfBusinessSameAsRegisteredOffice(
            true,
        )),
        taken_over_business: None,
    });
    let t = service().company_incorporation(msg.clone(), "XYZ789".to_string()).unwrap();
    match t.body {
        GovTalkBody::FormSubmission(body) => assert!(matches!(
            body.additional_information,
            Some(proto::form_submission::AdditionalInformation::CorporationTaxInformation(_))
        )),
        other => panic!("unexpected body {:?}", other),
    }
    msg.corporation_tax_registration.as_mut().unwrap().principal_place_of_business = None;
    let e = service().company_incorporation(msg, "XYZ789".to_string()).unwrap_err();
    assert_eq!(e.code, ErrorCode::InvalidArgument);
}

#[test]
fn articles_and_memorandum_statements_by_name() {
    assert_eq!(articles(Articles::NoArticles), None);
    assert_eq!(articles(Articles::ModelByShares), Some(proto::company_incorporation::Articles::ModelByShares));
    assert_eq!(articles(Articles::ModelByGuarantee), Some(proto::company_incorporation::Articles::ModelByGuarantee));
    assert_eq!(articles(Articles::ModelPlc), Some(proto::company_incorporation::Articles::ModelPLC));
    assert_eq!(articles(Articles::AmendedByShares), Some(proto::company_incorporation::Articles::AmendedByShares));
    assert_eq!(
        articles(Articles::AmendedByGuarantee),
        Some(proto::company_incorporation::Articles::AmendedByGuarantee)
    );
    assert_eq!(articles(Articles::AmendedPlc), Some(proto::company_incorporation::Articles::AmendedPLC));
    assert_eq!(articles(Articles::Bespoke), Some(proto::company_incorporation::Articles::Bespoke));
    assert_eq!(memorandum_statement(None), None);
    assert_eq!(memorandum_statement(Some(MemorandumStatement::NoMemorandumStatement)), None);
    assert_eq!(
        memorandum_statement(Some(MemorandumStatement::MemberWithShares)),
        Some(proto::company_incorporation::MemorandumStatement::MemberWithShares)
    );
    assert_eq!(
        memorandum_statement(Some(MemorandumStatement::MemberWithoutShares)),
        Some(proto::company_incorporation::MemorandumStatement::MemberWithoutShares)
    );
}

#[test]
fn registers_kept_at_the_registry() {
    let named = vec![Some(Register::Secretaries), None, Some(Register::PersonsOfSignificantControl)];
    assert!(holds(&named, Register::Secretaries));
    assert!(holds(&named, Register::PersonsOfSignificantControl));
    assert!(!holds(&named, Register::Directors));
    assert!(!holds(&vec![], Register::Directors));
    let r = proto::company_incorporation::RegistersHeldOnPublicRecord::from(&named);
    assert!(r.secretaries);
    assert!(!r.directors);
    assert!(!r.directors_ura);
    assert!(!r.members);
    assert!(!r.llp_members);
    assert!(!r.llp_members_ura);
    assert!(r.psc.unwrap().state_no_objection);
    let r = proto::company_incorporation::RegistersHeldOnPublicRecord::from(&vec![
        Some(Register::LlpMembers),
        Some(Register::DirectorsUsualResidentialAddress),
    ]);
    assert!(r.llp_members);
    assert!(r.llp_members_ura);
    assert!(r.directors_ura);
    assert!(r.psc.is_none());
    let r = proto::company_incorporation::RegistersHeldOnPublicRecord::from(&vec![Some(
        Register::LlpMembersUsualResidentialAddress,
    )]);
    assert!(!r.llp_members);
    assert!(!r.llp_members_ura);
    let mut msg = incorporation();
    msg.registers_held_on_public_record = vec![Some(Register::Members)];
    match service().company_incorporation(msg, "XYZ789".to_string()).unwrap().body {
        GovTalkBody::FormSubmission(body) => match body.form {
            Form::CompanyIncorporation(form) => {
                let registers = form.registers_held_on_public_record.unwrap();
                assert!(registers.members);
                assert!(!registers.secretaries);
            }
            other => panic!("unexpected form {:?}", other),
        },
        other => panic!("unexpected body {:?}", other),
    }
}
