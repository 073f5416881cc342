use ch_ewf::ch_ewf_grpc::accounting_reference_date::{AccountingReferenceDate, FiveYearExtensionDetails};
use ch_ewf::ch_ewf_grpc::base_types::{
    CompanyType, ContentType, Document, PersonalAttribute, PersonalAttributeType, RecordType, UkAddress,
    UkAddressCountry,
};
use ch_ewf::ch_ewf_grpc::change_of_location::{
    ChangeOfLocation, Move, MoveToRegisteredOffice, Records, RegisteredOfficeMove,
};
use ch_ewf::ch_ewf_grpc::change_of_name::ChangeOfName;
use ch_ewf::ch_ewf_grpc::change_registered_office::ChangeRegisteredOffice;
use ch_ewf::ch_ewf_grpc::charge_registration::ChargeRegistration;
use ch_ewf::ch_ewf_grpc::form_submission::{FormSubmission, Language};
use ch_ewf::ch_ewf_grpc::sail_address::SailAddress;
use ch_ewf::error::{ErrorCode, ServiceError};
use ch_ewf::gov_talk::{GovTalkError, GovTalkErrors, GovTalkResponse, GovTalkSender};
use ch_ewf::grpc::charges::add_document;
use ch_ewf::grpc::forms::{registers, sic_codes};
use ch_ewf::grpc::submission::{declined, mismatched, FormRequest};
use ch_ewf::grpc::CHFillingService;
use ch_ewf::proto;
use ch_ewf::proto::accounting_reference_date::{ChangeToPeriod, ExtensionReason};
use ch_ewf::proto::change_of_name::MethodOfChange;
use ch_ewf::proto::charge_registration::FloatingCharge;
use ch_ewf::proto::form_submission::{Category, Form};
use ch_ewf::proto::govtalk::GovTalkBody;
use ch_ewf::schema::Status;
use ch_ewf::time::{Date, Timestamp};

fn service() -> CHFillingService {
    CHFillingService {
        sender: GovTalkSender::new("filing@example.com", "presenter", "secret", true),
        documents_path: "/var/lib/documents".to_string(),
        presenter_id: "presenter".to_string(),
        package_reference: "0012".to_string(),
    }
}

fn form_submission() -> FormSubmission {
    FormSubmission {
        company_number: 1234567,
        company_type: Some(CompanyType::CompanyScotland),
        company_name: "Acme Widgets ltd".to_string(),
        authentication_code: "A1B2C3".to_string(),
        language: Some(Language::English),
        contact_name: String::new(),
        contact_number: String::new(),
        customer_reference: Some("REF-1".to_string()),
        date_signed: Some(Date { days_from_ce: 738000 }),
    }
}

fn uk_address() -> UkAddress {
    UkAddress {
        premise: "1".to_string(),
        street: "High Street".to_string(),
        thoroughfare: String::new(),
        post_town: "Cardiff".to_string(),
        county: String::new(),
        country: Some(UkAddressCountry::Wales),
        postcode: "CF14 3UZ".to_string(),
        care_of_name: String::new(),
        po_box: String::new(),
    }
}

fn refused<T: std::fmt::Debug>(r: Result<T, ServiceError>, message: &str) {
    let e = r.unwrap_err();
    assert_eq!(e.code, ErrorCode::InvalidArgument);
    assert_eq!(e.message, message);
}

fn some_form() -> Form {
    Form::SAILAddress(proto::sail_address::SAILAddress {
        address: proto::base_types::UKAddress::try_from(uk_address()).unwrap(),
    })
}

fn hand_in(f: Option<FormSubmission>) -> Result<ch_ewf::grpc::submission::FormTransaction, ServiceError> {
    service().form_submission(f, "SailAddress", "AD02", some_form(), vec![], "ABC123".to_string())
}

#[test]
fn a_form_is_put_together_with_its_header() {
    let t = hand_in(Some(form_submission())).unwrap();
    assert_eq!(t.class, "SailAddress");
    assert_eq!(t.company_number, Some("SC1234567".to_string()));
    assert_eq!(t.customer_reference, Some("REF-1".to_string()));
    assert_eq!(t.submission_number, "ABC123");
    match t.body {
        GovTalkBody::FormSubmission(body) => {
            let h = &body.form_header;
            assert_eq!(h.company_number, Some(1234567));
            assert_eq!(h.company_type, Some(proto::base_types::CompanyType::SC));
            assert_eq!(h.company_name, "ACME WIDGETS LTD");
            assert_eq!(h.company_authentication_code, Some("A1B2C3".to_string()));
            assert_eq!(h.package_reference, "0012");
            assert_eq!(h.language, proto::form_submission::SubmissionLanguage::English);
            assert_eq!(h.form_identifier, "AD02");
            assert_eq!(h.submission_number, "ABC123");
            assert_eq!(h.contact_name, None);
            assert_eq!(h.contact_number, None);
            assert_eq!(h.customer_reference, Some("REF-1".to_string()));
            assert_eq!(body.date_signed, Date { days_from_ce: 738000 });
            assert!(matches!(body.form, Form::SAILAddress(_)));
            assert!(body.additional_information.is_none());
            assert!(body.documents.is_empty());
        }
        other => panic!("unexpected body {:?}", other),
    }
}

#[test]
fn company_numbers_carry_the_prefix_of_the_type() {
    for (company_type, number, expected) in [
        (CompanyType::CompanyEnglandAndWales, 1234567u32, "1234567"),
        (CompanyType::CompanyEnglandAndWales, 0, "0"),
        (CompanyType::CompanyScotland, 42, "SC42"),
        (CompanyType::CompanyNorthernIreland, 7, "NI7"),
        (CompanyType::CompanyIreland, 10, "R10"),
        (CompanyType::LimitedLiabilityPartnershipEnglandAndWales, 300001, "OC300001"),
        (CompanyType::LimitedLiabilityPartnershipScotland, 4294967295, "SO4294967295"),
        (CompanyType::LimitedLiabilityPartnershipNorthernIreland, 99, "NC99"),
    ] {
        let mut f = form_submission();
        f.company_type = Some(company_type);
        f.company_number = number;
        assert_eq!(hand_in(Some(f)).unwrap().company_number, Some(expected.to_string()));
    }
}

#[test]
fn contact_name_and_number_go_together() {
    let contact = |name: &str, number: &str| {
        let mut f = form_submission();
        f.contact_name = name.to_string();
        f.contact_number = number.to_string();
        match hand_in(Some(f)).unwrap().body {
            GovTalkBody::FormSubmission(body) => (body.form_header.contact_name, body.form_header.contact_number),
            other => panic!("unexpected body {:?}", other),
        }
    };
    assert_eq!(contact("", ""), (None, None));
    assert_eq!(contact("Jo", ""), (Some("Jo".to_string()), Some(String::new())));
    assert_eq!(contact("", "0123"), (Some(String::new()), Some("0123".to_string())));
    assert_eq!(contact("Jo", "0123"), (Some("Jo".to_string()), Some("0123".to_string())));
}

#[test]
fn company_names_go_in_capital_letters() {
    let name = |given: &str| {
        let mut f = form_submission();
        f.company_name = given.to_string();
        match hand_in(Some(f)).unwrap().body {
            GovTalkBody::FormSubmission(body) => body.form_header.company_name,
            other => panic!("unexpected body {:?}", other),
        }
    };
    assert_eq!(name("abc"), "ABC");
    assert_eq!(name("Crème & Co"), "CRÈME & CO");
    assert_eq!(name("ALREADY 1"), "ALREADY 1");
    assert_eq!(name("straße"), "STRASSE");
}

#[test]
fn a_form_is_refused_for_what_it_says_of_itself() {
    refused(hand_in(None), "Form submission required");
    let mut f = form_submission();
    f.company_name = "ab".to_string();
    f.authentication_code = String::new();
    refused(hand_in(Some(f)), "Invalid company name length");
    let mut f = form_submission();
    f.company_name = "x".repeat(161);
    refused(hand_in(Some(f)), "Invalid company name length");
    let mut f = form_submission();
    f.company_name = "x".repeat(160);
    assert!(hand_in(Some(f)).is_ok());
    for code in ["", "12345", "123456789"] {
        let mut f = form_submission();
        f.authentication_code = code.to_string();
        f.company_type = None;
        refused(hand_in(Some(f)), "Company authentication code of the wrong length");
    }
    for code in ["123456", "1234567", "12345678"] {
        let mut f = form_submission();
        f.authentication_code = code.to_string();
        assert!(hand_in(Some(f)).is_ok());
    }
    let mut f = form_submission();
    f.company_type = None;
    f.language = None;
    refused(hand_in(Some(f)), "Invalid company type");
    let mut f = form_submission();
    f.language = None;
    f.date_signed = None;
    refused(hand_in(Some(f)), "Language required");
    let mut f = form_submission();
    f.date_signed = None;
    refused(hand_in(Some(f)), "Date signed required");
}

#[test]
fn authentication_codes_are_six_to_eight_bytes() {
    assert!(CHFillingService::check_authentication_code("123456").is_ok());
    assert!(CHFillingService::check_authentication_code("12345678").is_ok());
    refused(CHFillingService::check_authentication_code("12345"), "Company authentication code of the wrong length");
    refused(CHFillingService::check_authentication_code("123456789"), "Company authentication code of the wrong length");
    assert!(CHFillingService::check_authentication_code("ééé").is_ok());
    refused(CHFillingService::check_authentication_code("ééééé"), "Company authentication code of the wrong length");
}

#[test]
fn the_answer_to_a_form_gives_the_row_and_the_reply() {
    let t = hand_in(Some(form_submission())).unwrap();
    let id: u128 = 0x0123456789abcdef0123456789abcdef;
    let response = GovTalkResponse {
        transaction_id: "TX1".to_string(),
        gateway_timestamp: Timestamp { seconds: 1700000000, nanos: 5 },
        warnings: vec![],
        body: None,
    };
    let (row, reply) = CHFillingService::form_submission_outcome(id, t, Ok(response)).unwrap();
    assert_eq!(row.id, id);
    assert_eq!(row.ch_submission_id, "ABC123");
    assert_eq!(row.company_number, Some("SC1234567".to_string()));
    assert_eq!(row.received_timestamp, Timestamp { seconds: 1700000000, nanos: 5 });
    assert_eq!(row.customer_reference, Some("REF-1".to_string()));
    assert_eq!(row.status, Status::Pending);
    assert_eq!(row.reject_reference, None);
    assert_eq!(row.examiner_telephone, None);
    assert_eq!(row.examiner_comment, None);
    assert_eq!(row.document_id, None);
    assert_eq!(row.incorporation_date, None);
    assert_eq!(row.authentication_code, None);
    assert_eq!(row.charge_code, None);
    assert_eq!(reply.transaction_id, "TX1");
    assert_eq!(reply.submission_id, "01234567-89ab-cdef-0123-456789abcdef");
    assert_eq!(reply.ch_submission_number, "ABC123");
}

#[test]
fn a_declined_form_is_told_with_every_message() {
    let t = hand_in(Some(form_submission())).unwrap();
    let errors = GovTalkErrors {
        transaction_id: "TX1".to_string(),
        errors: vec![
            GovTalkError { raised_by: "registry".to_string(), code: 502, msg: "Authorisation failure".to_string() },
            GovTalkError { raised_by: "registry".to_string(), code: 100, msg: "Not today".to_string() },
        ],
    };
    let said = declined(&errors);
    assert_eq!(said.code, ErrorCode::Unknown);
    assert_eq!(said.message, "Transaction ID: TX1; error description: Authorisation failure; Not today");
    let e = CHFillingService::form_submission_outcome(1, t, Err(errors)).unwrap_err();
    assert_eq!(e.code, ErrorCode::Unknown);
    assert_eq!(e.message, said.message);
}

#[test]
fn saving_the_row_decides_the_reply() {
    let reply = ch_ewf::ch_ewf_grpc::form_submission::SubmissionResponse {
        transaction_id: "TX1".to_string(),
        submission_id: "id".to_string(),
        ch_submission_number: "ABC123".to_string(),
    };
    let kept = CHFillingService::form_submission_saved(reply.clone(), Ok(())).unwrap();
    assert_eq!(kept.transaction_id, "TX1");
    assert_eq!(kept.submission_id, "id");
    assert_eq!(kept.ch_submission_number, "ABC123");
    let e = CHFillingService::form_submission_saved(reply, Err("connection lost".to_string())).unwrap_err();
    assert_eq!(e.code, ErrorCode::Internal);
    assert_eq!(e.message, "Unable to save submission to DB: connection lost");
}

#[test]
fn an_answer_of_another_kind_is_an_internal_failure() {
    let e = mismatched::<u8>().unwrap_err();
    assert_eq!(e.code, ErrorCode::Internal);
    assert_eq!(e.message, "Mismatched response message received");
    let e = CHFillingService::database_failure();
    assert_eq!(e.code, ErrorCode::Internal);
    assert_eq!(e.message, "Error accessing database");
}

fn is_for(request: &FormRequest, class: &str, form_type: &str) {
    assert_eq!(request.submission_class, class);
    assert_eq!(request.form_type, form_type);
    assert_eq!(format!("{:?}", request.form_submission), format!("{:?}", Some(form_submission())));
}

#[test]
fn change_of_registered_office() {
    let msg = ChangeRegisteredOffice { form_submission: Some(form_submission()), address: Some(uk_address()) };
    let request = CHFillingService::change_registered_office(msg).unwrap();
    is_for(&request, "ChangeRegisteredOfficeAddress", "ChangeRegisteredOfficeAddress");
    assert!(request.documents.is_empty());
    match request.form {
        Form::ChangeRegisteredOffice(form) => {
            assert_eq!(form.address.post_town, "Cardiff");
            assert_eq!(form.address.country, proto::base_types::UKCountry::Wales);
        }
        other => panic!("unexpected form {:?}", other),
    }
    refused(
        CHFillingService::change_registered_office(ChangeRegisteredOffice { form_submission: None, address: None }),
        "Need new address",
    );
    let mut address = uk_address();
    address.post_town = String::new();
    refused(
        CHFillingService::change_registered_office(ChangeRegisteredOffice {
            form_submission: Some(form_submission()),
            address: Some(address),
        }),
        "Invalid post town",
    );
}

#[test]
fn inspection_address() {
    let msg = SailAddress { form_submission: Some(form_submission()), address: Some(uk_address()) };
    let request = CHFillingService::sail_address(msg).unwrap();
    is_for(&request, "SailAddress", "SailAddress");
    assert!(matches!(request.form, Form::SAILAddress(_)));
    refused(
        CHFillingService::sail_address(SailAddress { form_submission: Some(form_submission()), address: None }),
        "Need new address",
    );
}

#[test]
fn lists_of_records() {
    refused(registers(vec![]), "Invalid list of records");
    refused(registers(vec![Some(RecordType::Members); 17]), "Invalid list of records");
    assert_eq!(registers(vec![Some(RecordType::Members); 16]).unwrap().len(), 16);
    refused(registers(vec![Some(RecordType::Members), None]), "Invalid record type");
    let list = registers(vec![Some(RecordType::Directors), Some(RecordType::LlpMembers), Some(RecordType::DebentureHolders)])
        .unwrap();
    assert_eq!(list.len(), 3);
    assert_eq!(list[0].register_type, proto::base_types::RecordType::Directors);
    assert_eq!(list[1].register_type, proto::base_types::RecordType::LLPMembers);
    assert_eq!(list[2].register_type, proto::base_types::RecordType::DebentureHolders);
}

#[test]
fn change_of_location() {
    let form = |location_move: Option<Move>| {
        CHFillingService::change_of_location(ChangeOfLocation { form_submission: Some(form_submission()), location_move })
    };
    refused(form(None), "One of move to SAIL or move to RO must be provided");
    refused(
        form(Some(Move::MoveToRegisteredOffice(MoveToRegisteredOffice { records_move: None }))),
        "One of move all or move some must be provided",
    );
    refused(
        form(Some(Move::MoveToRegisteredOffice(MoveToRegisteredOffice {
            records_move: Some(RegisteredOfficeMove::All(false)),
        }))),
        "Move all to registered office must be true",
    );
    refused(form(Some(Move::MoveToSail(Records { records: vec![] }))), "Invalid list of records");
    refused(
        form(Some(Move::MoveToRegisteredOffice(MoveToRegisteredOffice {
            records_move: Some(RegisteredOfficeMove::Listed(Records { records: vec![None] })),
        }))),
        "Invalid record type",
    );
    let request = form(Some(Move::MoveToSail(Records { records: vec![Some(RecordType::Secretaries)] }))).unwrap();
    is_for(&request, "RecordChangeOfLocation", "RecordChangeOfLocation");
    match request.form {
        Form::RecordChangeOfLocation(proto::change_of_location::RecordChangeOfLocation::MoveToSAILAddress(m)) => {
            assert!(m.move_to_sail_address);
            assert_eq!(m.register_list.len(), 1);
            assert_eq!(m.register_list[0].register_type, proto::base_types::RecordType::Secretaries);
        }
        other => panic!("unexpected form {:?}", other),
    }
    let request = form(Some(Move::MoveToRegisteredOffice(MoveToRegisteredOffice {
        records_move: Some(RegisteredOfficeMove::All(true)),
    })))
    .unwrap();
    match request.form {
        Form::RecordChangeOfLocation(proto::change_of_location::RecordChangeOfLocation::MoveToRegisteredOffice(m)) => {
            assert!(m.move_to_registered_office);
            assert!(matches!(m.move_type, proto::change_of_location::MoveToRegisteredOfficeType::All(true)));
        }
        other => panic!("unexpected form {:?}", other),
    }
    let request = form(Some(Move::MoveToRegisteredOffice(MoveToRegisteredOffice {
        records_move: Some(RegisteredOfficeMove::Listed(Records { records: vec![Some(RecordType::Members)] })),
    })))
    .unwrap();
    match request.form {
        Form::RecordChangeOfLocation(proto::change_of_location::RecordChangeOfLocation::MoveToRegisteredOffice(m)) => {
            match m.move_type {
                proto::change_of_location::MoveToRegisteredOfficeType::Listed(list) => {
                    assert_eq!(list.len(), 1);
                    assert_eq!(list[0].register_type, proto::base_types::RecordType::Members);
                }
                other => panic!("unexpected move {:?}", other),
            }
        }
        other => panic!("unexpected form {:?}", other),
    }
}

#[test]
fn change_of_name() {
    let msg = || ChangeOfName {
        form_submission: Some(form_submission()),
        proposed_name: "New name ltd".to_string(),
        notice_given: true,
        method_of_change: Some(MethodOfChange::Resolution),
        meeting_date: Some(Date { days_from_ce: 738001 }),
        same_day: true,
    };
    let request = CHFillingService::change_of_name(msg()).unwrap();
    is_for(&request, "ChangeOfName", "ChangeOfName");
    match request.form {
        Form::ChangeOfName(form) => {
            assert_eq!(form.proposed_company_name, "NEW NAME LTD");
            assert!(form.notice_given);
            assert_eq!(form.method_of_change, MethodOfChange::Resolution);
            assert_eq!(form.meeting_date, Some(Date { days_from_ce: 738001 }));
            assert!(form.same_day);
        }
        other => panic!("unexpected form {:?}", other),
    }
    let mut m = msg();
    m.proposed_name = "ab".to_string();
    m.notice_given = false;
    refused(CHFillingService::change_of_name(m), "Invalid proposed name");
    let mut m = msg();
    m.proposed_name = "x".repeat(161);
    refused(CHFillingService::change_of_name(m), "Invalid proposed name");
    let mut m = msg();
    m.notice_given = false;
    m.method_of_change = None;
    refused(CHFillingService::change_of_name(m), "Notice given required");
    let mut m = msg();
    m.method_of_change = None;
    refused(CHFillingService::change_of_name(m), "Invalid method of change");
}

#[test]
fn accounting_reference_date() {
    let msg = || AccountingReferenceDate {
        form_submission: Some(form_submission()),
        current_accounting_reference_date: Some(Date { days_from_ce: 738000 }),
        change_to_period: Some(ChangeToPeriod::Extend),
        new_accounting_reference_date: Some(Date { days_from_ce: 738100 }),
        five_year_extension_details: Some(FiveYearExtensionDetails {
            extension_reason: Some(ExtensionReason::Administration),
            extension_authorization_code: Some("AB12".to_string()),
        }),
    };
    let request = CHFillingService::accounting_reference_date(msg()).unwrap();
    is_for(&request, "ChangeAccountingReferenceDate", "ChangeAccountingReferenceDate");
    match request.form {
        Form::ChangeAccountingReferenceDate(form) => {
            assert_eq!(form.accounting_reference_date, Date { days_from_ce: 738000 });
            assert_eq!(form.change_to_period, ChangeToPeriod::Extend);
            assert_eq!(form.amended_accounting_reference_date, Date { days_from_ce: 738100 });
            let details = form.five_year_extension_details.unwrap();
            assert_eq!(details.extension_reason, ExtensionReason::Administration);
            assert_eq!(details.extension_authorised_code, Some("AB12".to_string()));
        }
        other => panic!("unexpected form {:?}", other),
    }
    let mut m = msg();
    m.current_accounting_reference_date = None;
    m.change_to_period = None;
    refused(CHFillingService::accounting_reference_date(m), "Current accounting reference date required");
    let mut m = msg();
    m.change_to_period = None;
    refused(CHFillingService::accounting_reference_date(m), "Invalid change to period");
    let mut m = msg();
    m.new_accounting_reference_date = None;
    refused(CHFillingService::accounting_reference_date(m), "New accounting reference date required");
    let mut m = msg();
    m.five_year_extension_details =
        Some(FiveYearExtensionDetails { extension_reason: None, extension_authorization_code: Some("x".to_string()) });
    refused(CHFillingService::accounting_reference_date(m), "Invalid extension reason");
    let mut m = msg();
    m.five_year_extension_details = Some(FiveYearExtensionDetails {
        extension_reason: Some(ExtensionReason::Administration),
        extension_authorization_code: Some("ABC".to_string()),
    });
    refused(CHFillingService::accounting_reference_date(m), "Invalid extension authorization code");
    let mut m = msg();
    m.five_year_extension_details = None;
    match CHFillingService::accounting_reference_date(m).unwrap().form {
        Form::ChangeAccountingReferenceDate(form) => assert!(form.five_year_extension_details.is_none()),
        other => panic!("unexpected form {:?}", other),
    }
}

#[test]
fn sic_codes_are_four_or_five_digits() {
    assert!(sic_codes(vec![]).unwrap().is_none());
    let sent = sic_codes(vec!["6201".to_string(), "62020".to_string()]).unwrap().unwrap();
    assert_eq!(sent.codes, vec!["6201".to_string(), "62020".to_string()]);
    for bad in ["", "620", "620201", "62a1", "62.1", "-6201", "٦٢٠١"] {
        refused(sic_codes(vec!["6201".to_string(), bad.to_string()]), "Invalid SIC code");
    }
}

fn deed(filename: &str) -> Document {
    Document {
        data: b"any carnal pleasure".to_vec(),
        date: Some(Date { days_from_ce: 738000 }),
        filename: filename.to_string(),
        content_type: Some(ContentType::Pdf),
    }
}

fn charge() -> ChargeRegistration {
    let attribute = |kind: PersonalAttributeType, data: &str| PersonalAttribute {
        personal_attribute: Some(kind),
        personal_data: data.to_string(),
    };
    ChargeRegistration {
        form_submission: Some(form_submission()),
        persons_entitled: vec!["Bank plc".to_string()],
        additional_persons_entitled: false,
        deed_certification_statement: "Certified a true copy".to_string(),
        deed_certified_by: "A Solicitor".to_string(),
        personal_attributes: vec![
            attribute(PersonalAttributeType::BirthTown, "CAR"),
            attribute(PersonalAttributeType::Telephone, "123"),
            attribute(PersonalAttributeType::PassportNumber, "987"),
        ],
        deed: Some(deed("deed.pdf")),
        deed_supplemental: None,
        creation_date: Some(Date { days_from_ce: 737990 }),
        property_acquired_date: None,
        charge_description: "All the land".to_string(),
        fixed_charge: true,
        floating_charge: Some(FloatingCharge::CoversAll),
        negative_pledge: true,
        bare_trustee: false,
    }
}

#[test]
fn documents_go_out_in_base64() {
    let d = proto::form_submission::Document::try_from(&deed("deed.pdf"), Category::Deed).unwrap();
    assert_eq!(d.data, "YW55IGNhcm5hbCBwbGVhc3VyZQ==");
    assert_eq!(d.date, Some(Date { days_from_ce: 738000 }));
    assert_eq!(d.filename, Some("deed.pdf".to_string()));
    assert_eq!(d.content_type, proto::form_submission::ContentType::Pdf);
    assert_eq!(d.category, Category::Deed);
    let mut plain = deed("");
    plain.data = vec![0xfb, 0xff];
    plain.content_type = Some(ContentType::Pcl);
    let d = proto::form_submission::Document::try_from(&plain, Category::Articles).unwrap();
    assert_eq!(d.data, "+/8=");
    assert_eq!(d.filename, None);
    assert_eq!(d.content_type, proto::form_submission::ContentType::Pcl);
    assert_eq!(d.category, Category::Articles);
    let mut empty = deed("");
    empty.data = vec![];
    assert_eq!(proto::form_submission::Document::try_from(&empty, Category::Deed).unwrap().data, "");
    refused(proto::form_submission::Document::try_from(&deed(&"f".repeat(33)), Category::Deed), "Invalid filename");
    let mut unnamed = deed("deed.pdf");
    unnamed.content_type = None;
    refused(proto::form_submission::Document::try_from(&unnamed, Category::Deed), "Content type required");
}

#[test]
fn a_document_is_added_behind_the_others() {
    let first = proto::form_submission::Document::try_from(&deed("a.pdf"), Category::Deed).unwrap();
    let list = add_document(vec![first.clone()], &None, Category::DeedSupplemental).unwrap();
    assert_eq!(list.len(), 1);
    let list = add_document(vec![first.clone()], &Some(deed("b.pdf")), Category::DeedSupplemental).unwrap();
    assert_eq!(list.len(), 2);
    assert_eq!(list[0].filename, Some("a.pdf".to_string()));
    assert_eq!(list[1].filename, Some("b.pdf".to_string()));
    assert_eq!(list[1].category, Category::DeedSupplemental);
    refused(add_document(vec![first], &Some(deed(&"f".repeat(33))), Category::DeedSupplemental), "Invalid filename");
}

#[test]
fn charge_registration() {
    let request = CHFillingService::charge_registration(charge()).unwrap();
    is_for(&request, "ChargeRegistration", "ChargeRegistration");
    assert_eq!(request.documents.len(), 1);
    assert_eq!(request.documents[0].category, Category::Deed);
    assert_eq!(request.documents[0].data, "YW55IGNhcm5hbCBwbGVhc3VyZQ==");
    match request.form {
        Form::ChargeRegistration(form) => {
            assert_eq!(form.creation_date, Date { days_from_ce: 737990 });
            assert_eq!(form.property_acquired_date, None);
            assert_eq!(form.persons_entitled.chargee_names, vec!["Bank plc".to_string()]);
            assert!(!form.persons_entitled.additional_chargees);
            assert_eq!(form.charge_description, Some("All the land".to_string()));
            assert!(form.fixed_charge);
            assert_eq!(form.floating_charge, Some(FloatingCharge::CoversAll));
            assert!(form.negative_pledge);
            assert!(!form.bare_trustee);
            assert_eq!(form.deed_certification_statement, "Certified a true copy");
            assert_eq!(form.deed_certified_by, "A Solicitor");
            assert_eq!(form.authentication.len(), 3);
            assert_eq!(form.authentication[2].personal_data, "987");
        }
        other => panic!("unexpected form {:?}", other),
    }
    let mut c = charge();
    c.deed_supplemental = Some(deed("more.pdf"));
    let request = CHFillingService::charge_registration(c).unwrap();
    assert_eq!(request.documents.len(), 2);
    assert_eq!(request.documents[0].category, Category::Deed);
    assert_eq!(request.documents[1].category, Category::DeedSupplemental);
    assert_eq!(request.documents[1].filename, Some("more.pdf".to_string()));
}

#[test]
fn charge_registration_refusals_come_in_order() {
    let mut c = charge();
    c.persons_entitled = vec![];
    c.deed_certification_statement = String::new();
    refused(CHFillingService::charge_registration(c), "Invalid number of persons entitled");
    let mut c = charge();
    c.persons_entitled = vec!["a".to_string(); 5];
    refused(CHFillingService::charge_registration(c), "Invalid number of persons entitled");
    let mut c = charge();
    c.deed_certification_statement = String::new();
    c.deed_certified_by = String::new();
    refused(CHFillingService::charge_registration(c), "Invalid deed certification statement");
    let mut c = charge();
    c.deed_certified_by = "x".repeat(257);
    c.personal_attributes.pop();
    refused(CHFillingService::charge_registration(c), "Invalid deed certified by");
    let mut c = charge();
    c.personal_attributes.pop();
    c.deed = None;
    refused(CHFillingService::charge_registration(c), "Invalid number of personal attributes");
    let mut c = charge();
    c.deed = None;
    c.creation_date = None;
    refused(CHFillingService::charge_registration(c), "Deed document required");
    let mut c = charge();
    c.deed = Some(deed(&"f".repeat(33)));
    refused(CHFillingService::charge_registration(c), "Invalid filename");
    let mut c = charge();
    let mut supplemental = deed("more.pdf");
    supplemental.content_type = None;
    c.deed_supplemental = Some(supplemental);
    c.creation_date = None;
    refused(CHFillingService::charge_registration(c), "Content type required");
    let mut c = charge();
    c.creation_date = None;
    c.persons_entitled = vec!["x".repeat(257)];
    refused(CHFillingService::charge_registration(c), "Creation date required");
    let mut c = charge();
    c.persons_entitled = vec!["ok".to_string(), "x".repeat(257)];
    c.charge_description = "x".repeat(3501);
    refused(CHFillingService::charge_registration(c), "Invalid person entitled");
    let mut c = charge();
    c.charge_description = "x".repeat(3501);
    refused(CHFillingService::charge_registration(c), "Invalid charge description");
    let mut c = charge();
    c.personal_attributes[1].personal_data = "1234".to_string();
    refused(CHFillingService::charge_registration(c), "Invalid personal data length");
    let mut c = charge();
    c.charge_description = String::new();
    match CHFillingService::charge_registration(c).unwrap().form {
        Form::ChargeRegistration(form) => assert_eq!(form.charge_description, None),
        other => panic!("unexpected form {:?}", other),
    }
}
