use ch_ewf::ch_ewf_grpc::base_types::{
    BaseAddress, Capital, CompanyAddress, PersonName, Register, Share,
};
use ch_ewf::ch_ewf_grpc::charge_update::{ChargeId, ChargeUpdate, ExistingChargeKey, PartCeaseOrRelease, Update};
use ch_ewf::ch_ewf_grpc::confirmation_statement::{
    ConfirmationStatement, PartsName, Shareholder, ShareholderName, Shareholding, Transfer,
};
use ch_ewf::ch_ewf_grpc::officer_resignation::{
    Director, DirectorValue, OfficerResignation, Person, Resignation, Secretary, SecretaryValue,
};
use ch_ewf::ch_ewf_grpc::psc::{CompanyNatureOfControls, LegalPerson, LegalPersonIdentification};
use ch_ewf::ch_ewf_grpc::psc::{NatureOfControls, NatureOfControlsValue, Notification, NotificationPsc};
use ch_ewf::ch_ewf_grpc::psc_cessation::{Entity, PscCessation};
use ch_ewf::ch_ewf_grpc::psc_notification::PscNotification;
use ch_ewf::ch_ewf_grpc::register_elect_or_withdraw::{ElectOrWithdraw, RegisterElectOrWithdraw};
use ch_ewf::ch_ewf_grpc::return_allotment_shares::{Allotment, ReturnOfAllotmentShares};
use ch_ewf::decimal::{Decimal, MAX_AMOUNT_MICROS};
use ch_ewf::error::{ErrorCode, ServiceError};
use ch_ewf::grpc::submission::FormRequest;
use ch_ewf::grpc::CHFillingService;
use ch_ewf::proto;
use ch_ewf::proto::charge_update::{CeaseOrReleaseType, Satisfaction};
use ch_ewf::proto::form_submission::Form;
use ch_ewf::proto::psc::NatureOfControlType;
use ch_ewf::time::Date;

fn refused(r: Result<FormRequest, ServiceError>, message: &str) {
    let e = r.unwrap_err();
    assert_eq!(e.code, ErrorCode::InvalidArgument);
    assert_eq!(e.message, message);
}

fn is_for(request: &FormRequest, class: &str, form_type: &str) {
    assert_eq!(request.submission_class, class);
    assert_eq!(request.form_type, form_type);
    assert!(request.form_submission.is_none());
    assert!(request.documents.is_empty());
}

fn day(n: i32) -> Option<Date> {
    Some(Date { days_from_ce: n })
}

fn address() -> BaseAddress {
    BaseAddress {
        premise: "1".to_string(),
        street: String::new(),
        thoroughfare: String::new(),
        post_town: "Leeds".to_string(),
        county: String::new(),
        country: "GB-ENG".to_string(),
        postcode: String::new(),
    }
}

fn company_address() -> CompanyAddress {
    CompanyAddress { base_address: Some(address()), care_of_name: String::new(), po_box: String::new() }
}

fn capital() -> Capital {
    Capital {
        currency: "GBP".to_string(),
        total_aggregate_nominal_value: Decimal { micros: 100000000 },
        total_number_of_shares_issued: Decimal { micros: 100000000 },
        total_amount_unpaid: Decimal { micros: 0 },
        shares: vec![Share {
            share_class: "ORDINARY".to_string(),
            num_shares: Decimal { micros: 100000000 },
            aggregate_nominal_value: Decimal { micros: 100000000 },
            prescribed_particulars: "One vote each".to_string(),
        }],
    }
}

fn update() -> ChargeUpdate {
    ChargeUpdate {
        form_submission: None,
        person_delivering_name: "A Solicitor".to_string(),
        person_interest_in_charge: "Chargor".to_string(),
        charge_id: Some(ChargeId::ChargeCode("012345670001".to_string())),
        update: Some(Update::Satisfaction(Some(Satisfaction::Full))),
        person_delivering_address: Some(company_address()),
    }
}

#[test]
fn charge_update() {
    let request = CHFillingService::charge_update(update()).unwrap();
    is_for(&request, "ChargeUpdate", "ChargeUpdate");
    match request.form {
        Form::ChargeUpdate(form) => {
            assert!(matches!(&form.charge_id, proto::charge_update::ChargeID::ChargeCode(c) if c == "012345670001"));
            assert!(matches!(form.update, proto::charge_update::Update::Satisfaction(Satisfaction::Full)));
            assert_eq!(form.person_delivering.name, "A Solicitor");
            assert_eq!(form.person_delivering.interest_in_charge, "Chargor");
            assert_eq!(form.person_delivering.address.base_address.post_town, "Leeds");
        }
        other => panic!("unexpected form {:?}", other),
    }
    let mut u = update();
    u.charge_id = Some(ChargeId::ExistingChargeKey(ExistingChargeKey {
        existing_charge_key: "K1".to_string(),
        creation_date: day(737000),
        instrument_description: "Debenture".to_string(),
        short_particulars: "Short".to_string(),
    }));
    u.update = Some(Update::PartCeaseOrRelease(PartCeaseOrRelease {
        cease_or_release: Some(CeaseOrReleaseType::Release),
        assets_description: "The barn".to_string(),
    }));
    match CHFillingService::charge_update(u).unwrap().form {
        Form::ChargeUpdate(form) => {
            match form.charge_id {
                proto::charge_update::ChargeID::ExistingChargeKey(k) => {
                    assert_eq!(k.existing_charge_key, Some("K1".to_string()));
                    assert_eq!(k.creation_date, Date { days_from_ce: 737000 });
                    assert_eq!(k.instrument_description, "Debenture");
                    assert_eq!(k.short_particulars, "Short");
                }
                other => panic!("unexpected charge {:?}", other),
            }
            match form.update {
                proto::charge_update::Update::PartCeaseOrRelease(p) => {
                    assert_eq!(p.cease_or_release, CeaseOrReleaseType::Release);
                    assert_eq!(p.assets_description, "The barn");
                }
                other => panic!("unexpected update {:?}", other),
            }
        }
        other => panic!("unexpected form {:?}", other),
    }
    let mut u = update();
    u.update = Some(Update::FullCeaseOrRelease(Some(CeaseOrReleaseType::CeaseAndRelease)));
    match CHFillingService::charge_update(u).unwrap().form {
        Form::ChargeUpdate(form) => assert!(matches!(
            form.update,
            proto::charge_update::Update::AllCeaseOrRelease(CeaseOrReleaseType::CeaseAndRelease)
        )),
        other => panic!("unexpected form {:?}", other),
    }
}

#[test]
fn charge_update_refusals_come_in_order() {
    let mut u = update();
    u.person_delivering_name = String::new();
    u.person_interest_in_charge = String::new();
    refused(CHFillingService::charge_update(u), "Invalid person delivering name");
    let mut u = update();
    u.person_interest_in_charge = "x".repeat(101);
    u.charge_id = None;
    refused(CHFillingService::charge_update(u), "Invalid person interest in charge");
    let mut u = update();
    u.charge_id = None;
    u.update = None;
    refused(CHFillingService::charge_update(u), "Charge ID required");
    for code in ["12345678901", "12345678901234567"] {
        let mut u = update();
        u.charge_id = Some(ChargeId::ChargeCode(code.to_string()));
        refused(CHFillingService::charge_update(u), "Invalid charge code");
    }
    for code in ["123456789012", "1234567890123456"] {
        let mut u = update();
        u.charge_id = Some(ChargeId::ChargeCode(code.to_string()));
        assert!(CHFillingService::charge_update(u).is_ok());
    }
    let mut u = update();
    u.charge_id = Some(ChargeId::ExistingChargeKey(ExistingChargeKey {
        existing_charge_key: "K".to_string(),
        creation_date: None,
        instrument_description: String::new(),
        short_particulars: String::new(),
    }));
    refused(CHFillingService::charge_update(u), "Creation date required");
    let mut u = update();
    u.update = None;
    u.person_delivering_address = None;
    refused(CHFillingService::charge_update(u), "Charge update required");
    let mut u = update();
    u.update = Some(Update::Satisfaction(None));
    refused(CHFillingService::charge_update(u), "Invalid charge satisfaction");
    let mut u = update();
    u.update = Some(Update::FullCeaseOrRelease(None));
    refused(CHFillingService::charge_update(u), "Invalid charge cease or release");
    let mut u = update();
    u.update = Some(Update::PartCeaseOrRelease(PartCeaseOrRelease {
        cease_or_release: None,
        assets_description: String::new(),
    }));
    refused(CHFillingService::charge_update(u), "Invalid charge cease or release");
    let mut u = update();
    u.person_delivering_address = None;
    refused(CHFillingService::charge_update(u), "Person delivering address required");
    let mut u = update();
    u.person_delivering_address = Some(CompanyAddress {
        base_address: None,
        care_of_name: String::new(),
        po_box: String::new(),
    });
    refused(CHFillingService::charge_update(u), "Base address required");
}

#[test]
fn a_register_is_elected_or_withdrawn() {
    let form = |elect_or_withdraw: Option<ElectOrWithdraw>, register: Option<Register>| {
        CHFillingService::register_elect_or_withdraw(RegisterElectOrWithdraw {
            form_submission: None,
            elect_or_withdraw,
            register,
        })
    };
    let request = form(Some(ElectOrWithdraw::Elect), Some(Register::Secretaries)).unwrap();
    is_for(&request, "RegisterElectOrWithdraw", "RegisterElectOrWithdraw");
    match request.form {
        Form::RegisterElectOrWithdraw(f) => {
            assert!(matches!(f.elect_or_withdraw, proto::register_elect_or_withdraw::ElectOrWithdraw::Elect(true)));
            assert_eq!(f.register_type, proto::base_types::RegisterType::Secretaries);
        }
        other => panic!("unexpected form {:?}", other),
    }
    match form(Some(ElectOrWithdraw::Withdraw), Some(Register::LlpMembers)).unwrap().form {
        Form::RegisterElectOrWithdraw(f) => {
            assert!(matches!(
                f.elect_or_withdraw,
                proto::register_elect_or_withdraw::ElectOrWithdraw::Withdraw(true)
            ));
            assert_eq!(f.register_type, proto::base_types::RegisterType::LLPMembers);
        }
        other => panic!("unexpected form {:?}", other),
    }
    refused(form(None, None), "Invalid elect or withdraw");
    refused(form(Some(ElectOrWithdraw::Elect), None), "Invalid register");
}

#[test]
fn a_person_with_significant_control_ceases() {
    let form = |entity: Option<Entity>, cessation_date: Option<Date>, register_entry_date: Option<Date>| {
        CHFillingService::psc_cessation(PscCessation { form_submission: None, entity, cessation_date, register_entry_date })
    };
    let request = form(Some(Entity::Corporate("HOLDINGS LTD".to_string())), day(738000), day(738001)).unwrap();
    is_for(&request, "PSCCessation", "PSCCessation");
    match request.form {
        Form::PSCCessation(f) => {
            assert!(matches!(&f.entity, proto::psc_cessation::PSCEntity::Corporate(c) if c.corporate_name == "HOLDINGS LTD"));
            assert_eq!(f.cessation_date, Date { days_from_ce: 738000 });
            assert_eq!(f.register_entry_date, Date { days_from_ce: 738001 });
        }
        other => panic!("unexpected form {:?}", other),
    }
    match form(Some(Entity::LegalPerson("The Crown".to_string())), day(1), day(2)).unwrap().form {
        Form::PSCCessation(f) => assert!(
            matches!(&f.entity, proto::psc_cessation::PSCEntity::LegalPerson(p) if p.legal_person_name == "The Crown")
        ),
        other => panic!("unexpected form {:?}", other),
    }
    refused(form(None, None, None), "Entity must be provided");
    refused(form(Some(Entity::Corporate(String::new())), None, None), "Invalid corporate name");
    refused(form(Some(Entity::LegalPerson("x".repeat(161))), None, None), "Invalid legal person name");
    refused(form(Some(Entity::Corporate("A".to_string())), None, None), "Cessation date required");
    refused(form(Some(Entity::Corporate("A".to_string())), day(1), None), "Notification date required");
}

#[test]
fn a_person_with_significant_control_is_notified() {
    let msg = || PscNotification {
        form_submission: None,
        notification: Some(Notification {
            psc: Some(NotificationPsc::LegalPerson(LegalPerson {
                name: "The Crown".to_string(),
                address: Some(company_address()),
                legal_person_identification: Some(LegalPersonIdentification {
                    law_governed: "Common law".to_string(),
                    legal_form: "Corporation sole".to_string(),
                }),
            })),
        }),
        nature_of_control: Some(NatureOfControls {
            nature_of_controls: Some(NatureOfControlsValue::CompanyNatureOfControls(CompanyNatureOfControls {
                nature_of_controls: vec![Some(NatureOfControlType::VotingRights75To100)],
            })),
        }),
        notification_date: day(738000),
        register_entry_date: day(738001),
    };
    let request = CHFillingService::psc_notification(msg()).unwrap();
    is_for(&request, "PSCNotification", "PSCNotification");
    match request.form {
        Form::PSCNotification(f) => {
            assert!(matches!(&f.notification, proto::psc::PSCNotificationType::LegalPerson(p) if p.name == "The Crown"));
            assert!(matches!(&f.nature_of_control, proto::psc::PSCNatureOfControls::NatureOfControls(n)
                if n.nature_of_control == vec![NatureOfControlType::VotingRights75To100]));
            assert_eq!(f.notification_date, Date { days_from_ce: 738000 });
            assert_eq!(f.register_entry_date, Date { days_from_ce: 738001 });
        }
        other => panic!("unexpected form {:?}", other),
    }
    let mut m = msg();
    m.notification = None;
    m.nature_of_control = None;
    refused(CHFillingService::psc_notification(m), "Notification required");
    let mut m = msg();
    m.nature_of_control = None;
    m.notification_date = None;
    refused(CHFillingService::psc_notification(m), "Nature of control required");
    let mut m = msg();
    m.notification_date = None;
    refused(CHFillingService::psc_notification(m), "Notification date required");
    let mut m = msg();
    m.register_entry_date = None;
    refused(CHFillingService::psc_notification(m), "Notification date required");
}

#[test]
fn an_officer_resigns() {
    let name = || PersonName { title: String::new(), forenames: vec!["Ada".to_string()], surname: "Lovelace".to_string() };
    let form = |resignation_date: Option<Date>, resignation: Option<Resignation>| {
        CHFillingService::officer_resignation(OfficerResignation { form_submission: None, resignation_date, resignation })
    };
    let request = form(
        day(738000),
        Some(Resignation::Director(Director {
            director: Some(DirectorValue::Person(Person { person: Some(name()), date_of_birth: day(700000) })),
        })),
    )
    .unwrap();
    is_for(&request, "OfficerResignation", "OfficerResignation");
    match request.form {
        Form::OfficerResignation(f) => {
            assert_eq!(f.resignation_date, Date { days_from_ce: 738000 });
            match f.resignation {
                proto::officer_resignation::ResignationType::Director(
                    proto::officer_resignation::DirectorResignation::Person(p),
                ) => {
                    assert_eq!(p.person.surname, "Lovelace");
                    assert_eq!(p.dob, Date { days_from_ce: 700000 });
                }
                other => panic!("unexpected resignation {:?}", other),
            }
        }
        other => panic!("unexpected form {:?}", other),
    }
    let request = form(
        day(738000),
        Some(Resignation::Secretary(Secretary { secretary: Some(SecretaryValue::Corporate("SECRETARIES LTD".to_string())) })),
    )
    .unwrap();
    match request.form {
        Form::OfficerResignation(f) => assert!(matches!(
            &f.resignation,
            proto::officer_resignation::ResignationType::Secretary(
                proto::officer_resignation::SecretaryResignation::CorporateName(n)
            ) if n == "SECRETARIES LTD"
        )),
        other => panic!("unexpected form {:?}", other),
    }
    refused(form(None, None), "Resignation date required");
    refused(form(day(1), None), "Entity resigning must be provided");
    refused(form(day(1), Some(Resignation::Director(Director { director: None }))), "Director type required");
    refused(form(day(1), Some(Resignation::Secretary(Secretary { secretary: None }))), "Secretary type required");
    refused(
        form(day(1), Some(Resignation::Director(Director { director: Some(DirectorValue::Corporate(String::new())) }))),
        "Invalid corporate name",
    );
}

fn allotment() -> Allotment {
    Allotment {
        share_class: "ORDINARY".to_string(),
        num_shares: Decimal { micros: 10000000 },
        amount_paid_due_per_share: Decimal { micros: 1000000 },
        amount_unpaid_per_share: Decimal { micros: 0 },
        share_currency: "GBP".to_string(),
        share_value: Decimal { micros: 1000000 },
        consideration: String::new(),
    }
}

#[test]
fn shares_are_allotted() {
    let msg = || ReturnOfAllotmentShares {
        form_submission: None,
        statement_of_capital: vec![capital()],
        start_period: day(738000),
        end_period: None,
        allotments: vec![allotment()],
    };
    let request = CHFillingService::return_of_allotment_shares(msg()).unwrap();
    assert_eq!(request.submission_class, "ReturnOfAllotmentShares");
    assert_eq!(request.form_type, "ReturnofAllotmentShares");
    match request.form {
        Form::ReturnOfAllotmentShares(f) => {
            assert_eq!(f.start_period, Date { days_from_ce: 738000 });
            assert_eq!(f.end_period, None);
            assert_eq!(f.statement_of_capital.capital.len(), 1);
            assert_eq!(f.allotment.len(), 1);
            assert_eq!(f.allotment[0].consideration, None);
            assert_eq!(f.allotment[0].allotment.share_class, "ORDINARY");
            assert_eq!(f.allotment[0].allotment.num_shares, Decimal { micros: 10000000 });
            assert_eq!(f.allotment[0].allotment.share_currency, "GBP");
        }
        other => panic!("unexpected form {:?}", other),
    }
    let mut m = msg();
    m.statement_of_capital = vec![];
    m.start_period = None;
    refused(CHFillingService::return_of_allotment_shares(m), "Statement of capital required");
    let mut m = msg();
    m.start_period = None;
    m.statement_of_capital[0].currency = String::new();
    refused(CHFillingService::return_of_allotment_shares(m), "Start period required");
    let mut m = msg();
    m.statement_of_capital[0].currency = String::new();
    m.allotments[0].share_class = String::new();
    refused(CHFillingService::return_of_allotment_shares(m), "Invalid currency code");
    for (change, message) in [
        (Box::new(|a: &mut Allotment| a.share_class = String::new()) as Box<dyn Fn(&mut Allotment)>, "Invalid share class"),
        (Box::new(|a: &mut Allotment| a.num_shares = Decimal { micros: -1 }), "Invalid number of shares"),
        (
            Box::new(|a: &mut Allotment| a.amount_paid_due_per_share = Decimal { micros: MAX_AMOUNT_MICROS + 1 }),
            "Invalid amount paid due per share",
        ),
        (
            Box::new(|a: &mut Allotment| a.amount_unpaid_per_share = Decimal { micros: -1 }),
            "Invalid amount unpaid per share",
        ),
        (Box::new(|a: &mut Allotment| a.share_currency = "GB".to_string()), "Invalid share currency"),
        (Box::new(|a: &mut Allotment| a.consideration = "x".repeat(2001)), "Invalid consideration"),
    ] {
        let mut m = msg();
        change(&mut m.allotments[0]);
        refused(CHFillingService::return_of_allotment_shares(m), message);
    }
}

fn statement() -> ConfirmationStatement {
    ConfirmationStatement {
        form_submission: None,
        state_confirmation: true,
        review_date: day(738000),
        trading_on_market: Some(false),
        dtr5_applies: None,
        psc_exempt_as_trading_on_regulated_market: None,
        psc_exempt_as_shares_admitted_on_market: Some(true),
        psc_exempt_as_trading_on_uk_regulated_market: None,
        sic_codes: vec!["62010".to_string()],
        statement_of_capital: vec![capital()],
        shareholdings: vec![Shareholding {
            share_class: "ORDINARY".to_string(),
            number_held: Decimal { micros: 100000000 },
            transfers: vec![Transfer { date_of_transfer: day(737900), number_of_shares_transferred: Decimal { micros: 5000000 } }],
            shareholders: vec![
                Shareholder {
                    name: Some(ShareholderName::PartsName(PartsName { forename: None, surname: "Lovelace".to_string() })),
                    address: Some(address()),
                },
                Shareholder { name: Some(ShareholderName::AmalgamatedName("A & B".to_string())), address: Some(address()) },
            ],
        }],
    }
}

#[test]
fn a_confirmation_statement_is_put_together() {
    let request = CHFillingService::confirmation_statement(statement()).unwrap();
    is_for(&request, "ConfirmationStatement", "ConfirmationStatement");
    match request.form {
        Form::ConfirmationStatement(f) => {
            assert!(f.state_confirmation);
            assert_eq!(f.review_date, Date { days_from_ce: 738000 });
            assert_eq!(f.trading_on_market, Some(false));
            assert_eq!(f.dtr5_applies, None);
            assert_eq!(f.psc_exempt_as_shares_admitted_on_market, Some(true));
            assert_eq!(f.sic_codes.unwrap().codes, vec!["62010".to_string()]);
            assert_eq!(f.statement_of_capital.unwrap().capital.len(), 1);
            assert_eq!(f.shareholdings.len(), 1);
            let holding = &f.shareholdings[0];
            assert_eq!(holding.share_class, "ORDINARY");
            assert_eq!(holding.number_held, Decimal { micros: 100000000 });
            assert_eq!(holding.transfers.len(), 1);
            assert_eq!(holding.transfers[0].date_of_transfer, Date { days_from_ce: 737900 });
            assert_eq!(holding.transfers[0].number_of_shares_transferred, Decimal { micros: 5000000 });
            assert_eq!(holding.shareholders.len(), 2);
            assert!(matches!(&holding.shareholders[0].name,
                proto::confirmation_statement::ShareholderName::Name(n) if n.surname == "Lovelace" && n.forename.is_none()));
            assert!(matches!(&holding.shareholders[1].name,
                proto::confirmation_statement::ShareholderName::AmalgamatedName(n) if n == "A & B"));
        }
        other => panic!("unexpected form {:?}", other),
    }
    let mut s = statement();
    s.sic_codes = vec![];
    s.statement_of_capital = vec![];
    s.shareholdings = vec![];
    match CHFillingService::confirmation_statement(s).unwrap().form {
        Form::ConfirmationStatement(f) => {
            assert!(f.sic_codes.is_none());
            assert!(f.statement_of_capital.is_none());
            assert!(f.shareholdings.is_empty());
        }
        other => panic!("unexpected form {:?}", other),
    }
}

#[test]
fn a_confirmation_statement_is_refused_for_the_first_rule_broken() {
    let mut s = statement();
    s.state_confirmation = false;
    s.review_date = None;
    refused(CHFillingService::confirmation_statement(s), "State confirmation must be true");
    let mut s = statement();
    s.review_date = None;
    s.sic_codes = vec!["x".to_string()];
    refused(CHFillingService::confirmation_statement(s), "Review date required");
    let mut s = statement();
    s.sic_codes = vec!["62010".to_string(), "123".to_string()];
    s.statement_of_capital[0].currency = String::new();
    refused(CHFillingService::confirmation_statement(s), "Invalid SIC code");
    let mut s = statement();
    s.statement_of_capital[0].currency = String::new();
    s.shareholdings[0].share_class = String::new();
    refused(CHFillingService::confirmation_statement(s), "Invalid currency code");
    let mut s = statement();
    s.shareholdings[0].share_class = String::new();
    refused(CHFillingService::confirmation_statement(s), "Invalid share class");
    let mut s = statement();
    s.shareholdings[0].number_held = Decimal { micros: -1 };
    refused(CHFillingService::confirmation_statement(s), "Invalid number of shares held");
    let mut s = statement();
    s.shareholdings[0].transfers[0].date_of_transfer = None;
    refused(CHFillingService::confirmation_statement(s), "Date of transfer required");
    let mut s = statement();
    s.shareholdings[0].transfers[0].number_of_shares_transferred = Decimal { micros: MAX_AMOUNT_MICROS + 1 };
    refused(CHFillingService::confirmation_statement(s), "Invalid number of shares transferred");
    let mut s = statement();
    s.shareholdings[0].shareholders[1].name = None;
    refused(CHFillingService::confirmation_statement(s), "Shareholder name required");
    let mut s = statement();
    s.shareholdings[0].shareholders[0].address = None;
    refused(CHFillingService::confirmation_statement(s), "Shareholder address required");
    let mut s = statement();
    s.shareholdings[0].shareholders[1].name = Some(ShareholderName::AmalgamatedName(String::new()));
    refused(CHFillingService::confirmation_statement(s), "Invalid amalgamated name");
    let mut s = statement();
    s.shareholdings[0].shareholders[0].name =
        Some(ShareholderName::PartsName(PartsName { forename: Some("x".repeat(51)), surname: "L".to_string() }));
    refused(CHFillingService::confirmation_statement(s), "Invalid forename");
}
