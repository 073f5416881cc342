use ch_ewf::ch_ewf_grpc::base_types::{BaseAddress, CompanyType, PreviousName};
use ch_ewf::ch_ewf_grpc::members_data::{
    CompanyMember, MemberKind, MemberName, MemberNameValue, MembersRegisterRequest,
};
use ch_ewf::ch_ewf_grpc::members_register::{
    Elect, ElectMembers, ElectToHold, MemberWithoutShares, MembersRegisterElectOrWithdraw, MembersWithShares,
    MembersWithoutShares,
};
use ch_ewf::ch_ewf_grpc::members_register_update as update;
use ch_ewf::ch_ewf_grpc::officer_change::{Change, CorporateChange, OfficerChange, Secretary, SecretaryValue};
use ch_ewf::ch_ewf_grpc::psc::{StatementNotification, StatementNotificationValue};
use ch_ewf::ch_ewf_grpc::psc_change_details as psc_change;
use ch_ewf::ch_ewf_grpc::psc_statement_notification::PscStatementNotification;
use ch_ewf::ch_ewf_grpc::psc_statement_withdrawal::{PscStatementWithdrawal, RestrictionsNoticeWithdrawalReason};
use ch_ewf::error::{ErrorCode, ServiceError};
use ch_ewf::gov_talk::{GovTalkErrors, GovTalkResponse};
use ch_ewf::grpc::submission::FormRequest;
use ch_ewf::grpc::CHFillingService;
use ch_ewf::proto;
use ch_ewf::proto::form_submission::Form;
use ch_ewf::proto::govtalk::GovTalkBody;
use ch_ewf::proto::psc::{CompanyLevelStatement, PSCLevelStatement};
use ch_ewf::time::{Date, Timestamp};

fn refused(r: Result<FormRequest, ServiceError>, message: &str) {
    let e = r.unwrap_err();
    assert_eq!(e.code, ErrorCode::InvalidArgument);
    assert_eq!(e.message, message);
}

fn day(n: i32) -> Option<Date> {
    Some(Date { days_from_ce: n })
}

fn address() -> BaseAddress {
    BaseAddress {
        premise: "1".to_string(),
        street: String::new(),
        thoroughfare: String::new(),
        post_town: "Leeds".to_string(),
        county: String::new(),
        country: "GB-ENG".to_string(),
        postcode: String::new(),
    }
}

fn member(name: &str) -> CompanyMember {
    CompanyMember {
        class: String::new(),
        name: Some(MemberName { name: Some(MemberNameValue::CorporateName(name.to_string())) }),
        address: Some(address()),
    }
}

#[test]
fn the_register_of_members_is_elected_or_withdrawn() {
    let form = |elect: Option<Elect>| {
        CHFillingService::members_register_elect_or_withdraw(MembersRegisterElectOrWithdraw {
            form_submission: None,
            elect,
        })
    };
    let request = form(Some(Elect::WithdrawElectionToHold(true))).unwrap();
    assert_eq!(request.submission_class, "MembersRegisterElectOrWithdraw");
    assert_eq!(request.form_type, "MembersRegisterElectOrWithdraw");
    assert!(matches!(
        request.form,
        Form::MembersRegisterElectOrWithdraw(
            proto::members_register::MembersRegisterElectOrWithdraw::WithdrawElectionToHold(true)
        )
    ));
    let elect = |assented: bool, members: Option<ElectMembers>| {
        Some(Elect::ElectToHold(ElectToHold {
            state_all_members_assented: assented,
            members,
            state_overseas_registers_discontinued: true,
            state_single_member_company: false,
        }))
    };
    let one = || {
        Some(ElectMembers::MembersWithoutShares(MembersWithoutShares {
            members: vec![MemberWithoutShares { member: Some(member("HOLDINGS")), date_registered: day(730000) }],
        }))
    };
    match form(elect(true, one())).unwrap().form {
        Form::MembersRegisterElectOrWithdraw(proto::members_register::MembersRegisterElectOrWithdraw::ElectToHold(e)) => {
            assert!(e.state_all_members_assented);
            assert!(e.state_overseas_registers_discontinued);
            assert!(!e.state_single_member_company);
            match e.members {
                proto::members_register::Members::MembersWithoutShares(list) => {
                    assert_eq!(list.len(), 1);
                    assert_eq!(list[0].date_registered_as_member, Date { days_from_ce: 730000 });
                    assert_eq!(list[0].member.member_class, None);
                    assert!(matches!(&list[0].member.name,
                        proto::base_types::CompanyMemberName::CorporateName(n) if n == "HOLDINGS"));
                    assert_eq!(list[0].member.address.post_town, "Leeds");
                }
                other => panic!("unexpected members {:?}", other),
            }
        }
        other => panic!("unexpected form {:?}", other),
    }
    refused(form(None), "One of elect or withdraw must be specified");
    refused(form(Some(Elect::WithdrawElectionToHold(false))), "Withdraw election to hold must be true");
    refused(form(elect(false, None)), "All members must assent");
    refused(form(elect(true, None)), "One of members with or without shares must be specified");
    refused(
        form(elect(true, Some(ElectMembers::MembersWithShares(MembersWithShares { members: vec![] })))),
        "At least one member must be specified",
    );
    refused(
        form(elect(true, Some(ElectMembers::MembersWithoutShares(MembersWithoutShares { members: vec![] })))),
        "At least one member must be specified",
    );
    refused(
        form(elect(
            true,
            Some(ElectMembers::MembersWithoutShares(MembersWithoutShares {
                members: vec![MemberWithoutShares { member: None, date_registered: None }],
            })),
        )),
        "Member details required",
    );
    refused(
        form(elect(
            true,
            Some(ElectMembers::MembersWithoutShares(MembersWithoutShares {
                members: vec![MemberWithoutShares { member: Some(member("HOLDINGS")), date_registered: None }],
            })),
        )),
        "Date registered as member required",
    );
}

#[test]
fn the_register_of_members_is_updated() {
    let form = |members: Option<update::Members>, single_member: Option<update::SingleMember>| {
        CHFillingService::members_register_update(update::MembersRegisterUpdate {
            form_submission: None,
            members,
            single_member,
        })
    };
    let one = |status: Option<update::MemberWithoutSharesStatus>| {
        Some(update::Members::MembersWithoutShares(update::MembersWithoutShares {
            members: vec![update::MemberWithoutShares { member: Some(member("HOLDINGS")), member_status: status }],
        }))
    };
    let request =
        form(one(Some(update::MemberWithoutSharesStatus::NewMember(true))), Some(update::SingleMember::NoChange))
            .unwrap();
    assert_eq!(request.submission_class, "MembersRegisterUpdate");
    assert_eq!(request.form_type, "MembersRegisterUpdate");
    match request.form {
        Form::MembersRegisterUpdate(f) => {
            assert!(f.single_member.is_none());
            match f.members {
                proto::members_register_update::Members::MembersWithoutShares(list) => {
                    assert_eq!(list.len(), 1);
                    assert!(matches!(
                        list[0].new_existing_or_ceased_member,
                        proto::members_register_update::NewExistingOrCeasedMemberWithoutShares::NewOrExistingMember(
                            proto::members_register_update::NewOrExistingMember::StateNewMember(true)
                        )
                    ));
                }
                other => panic!("unexpected members {:?}", other),
            }
        }
        other => panic!("unexpected form {:?}", other),
    }
    let existing = update::MemberWithoutSharesStatus::ExistingMemberDateRegistered(day(730000));
    match form(one(Some(existing)), Some(update::SingleMember::BecomingSingleMember)).unwrap().form {
        Form::MembersRegisterUpdate(f) => {
            assert!(matches!(
                f.single_member,
                Some(proto::members_register_update::SingleMember::StateBecomingSingleMember(true))
            ));
            match f.members {
                proto::members_register_update::Members::MembersWithoutShares(list) => assert!(matches!(
                    list[0].new_existing_or_ceased_member,
                    proto::members_register_update::NewExistingOrCeasedMemberWithoutShares::NewOrExistingMember(
                        proto::members_register_update::NewOrExistingMember::DateRegisteredAsMember(Date {
                            days_from_ce: 730000
                        })
                    )
                )),
                other => panic!("unexpected members {:?}", other),
            }
        }
        other => panic!("unexpected form {:?}", other),
    }
    match form(one(Some(update::MemberWithoutSharesStatus::NewMember(true))), Some(update::SingleMember::NoLongerSingleMember))
        .unwrap()
        .form
    {
        Form::MembersRegisterUpdate(f) => assert!(matches!(
            f.single_member,
            Some(proto::members_register_update::SingleMember::StateNoLongerSingleMember(true))
        )),
        other => panic!("unexpected form {:?}", other),
    }
    refused(form(None, None), "Members required");
    refused(
        form(Some(update::Members::MembersWithShares(update::MembersWithShares { members: vec![] })), None),
        "Members required",
    );
    refused(form(one(None), None), "New, existing, or ceased required");
    refused(form(one(Some(update::MemberWithoutSharesStatus::NewMember(false))), None), "New member must be true");
    refused(form(one(Some(update::MemberWithoutSharesStatus::NewMember(true))), None), "Single member required");
    refused(
        form(one(Some(update::MemberWithoutSharesStatus::ExistingMemberDateRegistered(None))), None),
        "Date registered as member required",
    );
    refused(
        form(
            one(Some(update::MemberWithoutSharesStatus::CeasedToBeMember(update::CeasedToBeMember {
                date_registered: day(1),
                status: Some(update::CeasedToBeMemberStatus::DateCeased(None)),
            }))),
            None,
        ),
        "Date ceased required",
    );
    assert!(form(
        one(Some(update::MemberWithoutSharesStatus::CeasedToBeMember(update::CeasedToBeMember {
            date_registered: day(1),
            status: Some(update::CeasedToBeMemberStatus::DateCeased(day(2))),
        }))),
        Some(update::SingleMember::NoChange),
    )
    .is_ok());
    refused(
        form(
            one(Some(update::MemberWithoutSharesStatus::CeasedToBeMember(update::CeasedToBeMember {
                date_registered: day(1),
                status: None,
            }))),
            None,
        ),
        "Status required",
    );
}

#[test]
fn the_details_of_an_officer_change() {
    let form = |date_of_change: Option<Date>, change: Option<Change>| {
        CHFillingService::officer_change(OfficerChange { form_submission: None, date_of_change, change })
    };
    let corporate = |name: &str, new_name: Option<&str>| {
        Some(Change::Secretary(Secretary {
            secretary: Some(SecretaryValue::Corporate(CorporateChange {
                corporate_name: name.to_string(),
                new_corporate_name: new_name.map(|n| n.to_string()),
                new_address: None,
                new_company_identification: None,
            })),
        }))
    };
    let request = form(day(738000), corporate("OLD LTD", Some("NEW LTD"))).unwrap();
    assert_eq!(request.submission_class, "OfficerChangeDetails");
    assert_eq!(request.form_type, "OfficerChangeDetails");
    match request.form {
        Form::OfficerChangeDetails(f) => {
            assert_eq!(f.date_of_change, Date { days_from_ce: 738000 });
            match f.change {
                proto::officer_change::ChangeType::Secretary(s) => match *s {
                    proto::officer_change::SecretaryChange::Corporate(c) => {
                        assert_eq!(c.corporate_name, "OLD LTD");
                        let change = c.change.unwrap();
                        assert_eq!(change.corporate_name, Some("NEW LTD".to_string()));
                        assert!(change.address.is_none());
                        assert!(change.company_identification.is_none());
                    }
                    other => panic!("unexpected secretary {:?}", other),
                },
                other => panic!("unexpected change {:?}", other),
            }
        }
        other => panic!("unexpected form {:?}", other),
    }
    refused(form(None, None), "Date of change required");
    refused(form(day(1), None), "Entity changing must be provided");
    refused(form(day(1), Some(Change::Secretary(Secretary { secretary: None }))), "Secretary type required");
    refused(form(day(1), corporate("", None)), "Invalid corporate name");
}

#[test]
fn the_details_of_a_person_with_significant_control_change() {
    let form = |entity: Option<psc_change::Entity>, date_of_change: Option<Date>, register_entry_date: Option<Date>| {
        CHFillingService::psc_change_details(psc_change::PscChangeDetails {
            form_submission: None,
            entity,
            date_of_change,
            register_entry_date,
        })
    };
    let corporate = |name: &str, new_name: Option<&str>| {
        Some(psc_change::Entity::Corporate(psc_change::CorporateChange {
            corporate_name: name.to_string(),
            new_corporate_name: new_name.map(|n| n.to_string()),
            new_address: None,
            new_corporate_identification: None,
            new_nature_of_controls: None,
        }))
    };
    let request = form(corporate("OLD LTD", Some("NEW LTD")), day(738000), day(738001)).unwrap();
    assert_eq!(request.submission_class, "PSCChangeDetails");
    assert_eq!(request.form_type, "PSCChangeDetails");
    match request.form {
        Form::PSCChangeDetails(f) => {
            assert_eq!(f.date_of_change, Date { days_from_ce: 738000 });
            assert_eq!(f.register_entry_date, Date { days_from_ce: 738001 });
            match f.entity {
                proto::psc_change_details::PSCEntity::Corporate(c) => {
                    assert_eq!(c.corporate_name, "OLD LTD");
                    assert_eq!(c.change.unwrap().corporate_name, Some("NEW LTD".to_string()));
                }
                other => panic!("unexpected entity {:?}", other),
            }
        }
        other => panic!("unexpected form {:?}", other),
    }
    refused(form(None, None, None), "Entity changing details must be provided");
    refused(form(corporate("", None), None, None), "Invalid corporate name");
    refused(form(corporate("OLD LTD", Some("")), None, None), "Invalid new corporate name");
    refused(form(corporate("OLD LTD", None), None, None), "Date of change required");
    refused(form(corporate("OLD LTD", None), day(1), None), "Notification date required");
}

#[test]
fn statements_about_significant_control() {
    let company = |statement: Option<CompanyLevelStatement>| {
        Some(StatementNotification { notification: Some(StatementNotificationValue::CompanyLevelStatement(statement)) })
    };
    let request = CHFillingService::psc_statement_notification(PscStatementNotification {
        form_submission: None,
        statement_notification: company(Some(CompanyLevelStatement::StepsNotCompleted)),
        register_entry_date: day(738000),
    })
    .unwrap();
    assert_eq!(request.submission_class, "PSCStatementNotification");
    assert_eq!(request.form_type, "PSCStatementNotification");
    match request.form {
        Form::PSCStatementNotification(f) => {
            assert!(matches!(
                f.notification,
                proto::psc::PSCStatementNotificationType::Company(CompanyLevelStatement::StepsNotCompleted)
            ));
            assert_eq!(f.register_entry_date, Date { days_from_ce: 738000 });
        }
        other => panic!("unexpected form {:?}", other),
    }
    let notify = |statement_notification: Option<StatementNotification>, register_entry_date: Option<Date>| {
        CHFillingService::psc_statement_notification(PscStatementNotification {
            form_submission: None,
            statement_notification,
            register_entry_date,
        })
    };
    refused(notify(None, None), "Statement notification required");
    refused(notify(Some(StatementNotification { notification: None }), None), "Statement notification required");
    refused(notify(company(None), None), "Invalid company level statement");
    refused(
        notify(
            Some(StatementNotification { notification: Some(StatementNotificationValue::PscLevelStatement(None)) }),
            None,
        ),
        "Invalid PSC level statement",
    );
    refused(notify(company(Some(CompanyLevelStatement::NoSignificantControl)), None), "Notification date required");

    let withdrawal = |reason: Option<RestrictionsNoticeWithdrawalReason>, withdrawal_date: Option<Date>| {
        CHFillingService::psc_statement_withdrawal(PscStatementWithdrawal {
            form_submission: None,
            statement_notification: Some(StatementNotification {
                notification: Some(StatementNotificationValue::PscLevelStatement(Some(
                    PSCLevelStatement::RestrictionNoticeIssued,
                ))),
            }),
            withdrawal_date,
            restrictions_notice_withdrawal_reason: reason,
            register_entry_date: day(738001),
        })
    };
    let request = withdrawal(Some(RestrictionsNoticeWithdrawalReason::WithdrawnByCourtOrder), day(738000)).unwrap();
    assert_eq!(request.submission_class, "PSCStatementWithdrawal");
    match request.form {
        Form::PSCStatementWithdrawal(f) => {
            assert!(matches!(
                f.notification,
                proto::psc::PSCStatementNotificationType::Psc(PSCLevelStatement::RestrictionNoticeIssued)
            ));
            assert_eq!(f.withdrawal_date, Date { days_from_ce: 738000 });
            assert_eq!(
                f.restrictions_notice_withdrawal_reason,
                Some(proto::psc_statement_withdrawal::RestrictionsNoticeWithdrawalReason::WithdrawnByCourtOrder)
            );
            assert_eq!(f.register_entry_date, Date { days_from_ce: 738001 });
        }
        other => panic!("unexpected form {:?}", other),
    }
    match withdrawal(Some(RestrictionsNoticeWithdrawalReason::NoReason), day(738000)).unwrap().form {
        Form::PSCStatementWithdrawal(f) => assert_eq!(f.restrictions_notice_withdrawal_reason, None),
        other => panic!("unexpected form {:?}", other),
    }
    refused(withdrawal(None, None), "Withdrawal date required");
    refused(withdrawal(None, day(1)), "Invalid restrictions notice withdrawal reason");
}

#[test]
fn previous_names_are_listed_in_replies() {
    let names = CHFillingService::map_previous_names(vec![
        proto::base_types::PreviousNameType { forename: Some("Ada".to_string()), surname: "Byron".to_string() },
        proto::base_types::PreviousNameType { forename: None, surname: "King".to_string() },
    ]);
    let expected = vec![
        PreviousName { forename: "Ada".to_string(), surname: "Byron".to_string() },
        PreviousName { forename: String::new(), surname: "King".to_string() },
    ];
    assert_eq!(format!("{:?}", names), format!("{:?}", expected));
    assert!(CHFillingService::map_previous_names(vec![]).is_empty());
}

fn answer(body: Option<GovTalkBody>) -> Result<GovTalkResponse, GovTalkErrors> {
    Ok(GovTalkResponse {
        transaction_id: "TX9".to_string(),
        gateway_timestamp: Timestamp { seconds: 1700000000, nanos: 0 },
        warnings: vec![],
        body,
    })
}

#[test]
fn the_register_of_members_is_asked_for_and_reported() {
    let request = CHFillingService::members_register(MembersRegisterRequest {
        company_number: 9,
        company_type: Some(CompanyType::CompanyIreland),
        authentication_code: "123456".to_string(),
    })
    .unwrap();
    assert_eq!(request.class, "MembersRegisterDataRequest");
    match request.body {
        GovTalkBody::MembersDataRequest(b) => {
            assert_eq!(b.company_number, 9);
            assert_eq!(b.company_type, Some(proto::base_types::CompanyType::R));
            assert_eq!(b.company_authentication_code, "123456");
        }
        other => panic!("unexpected body {:?}", other),
    }
    let e = CHFillingService::members_register(MembersRegisterRequest {
        company_number: 9,
        company_type: None,
        authentication_code: "1".to_string(),
    })
    .unwrap_err();
    assert_eq!(e.code, ErrorCode::InvalidArgument);
    assert_eq!(e.message, "Company authentication code of the wrong length");

    let base = proto::base_types::BaseAddress {
        premise: "1".to_string(),
        street: None,
        thoroughfare: None,
        post_town: "Leeds".to_string(),
        county: None,
        country: Some(proto::base_types::AddressCountry::Country(proto::base_types::AddressCountryType::England)),
        postcode: None,
    };
    let data = proto::members_data::MembersData {
        members: proto::members_data::MembersDataMembers {
            members: vec![
                proto::members_data::MemberType::Member(proto::members_data::Member {
                    class: "A".to_string(),
                    name: proto::register::MemberName::CorporateName("HOLDINGS".to_string()),
                    address: base.clone(),
                    date_registered: Date { days_from_ce: 730000 },
                    date_ceased: None,
                }),
                proto::members_data::MemberType::MemberWithShares(proto::members_data::MemberWithShares {
                    stocks_or_shares: vec![],
                    name: vec![proto::register::MemberName::CorporateName("SHARES LTD".to_string())],
                    address: base,
                    date_registered: Date { days_from_ce: 730001 },
                    date_ceased: Some(Date { days_from_ce: 737000 }),
                }),
            ],
        },
    };
    let reply = CHFillingService::members_register_reply(answer(Some(GovTalkBody::MembersData(data)))).unwrap();
    assert_eq!(reply.members.len(), 2);
    match &reply.members[0].member {
        Some(MemberKind::MemberWithoutShares(m)) => {
            let details = m.member.as_ref().unwrap();
            assert_eq!(details.class, "A");
            assert!(matches!(&details.name.as_ref().unwrap().name,
                Some(MemberNameValue::CorporateName(n)) if n == "HOLDINGS"));
            assert_eq!(details.address.as_ref().unwrap().country, "GB-ENG");
            assert_eq!(m.date_registered, day(730000));
            assert_eq!(m.date_ceased, None);
        }
        other => panic!("unexpected member {:?}", other),
    }
    match &reply.members[1].member {
        Some(MemberKind::MemberWithShares(m)) => {
            assert_eq!(m.name.len(), 1);
            assert!(m.shares_or_stock_held.is_empty());
            assert_eq!(m.date_registered, day(730001));
            assert_eq!(m.date_ceased, day(737000));
        }
        other => panic!("unexpected member {:?}", other),
    }
    let e = CHFillingService::members_register_reply(answer(None)).unwrap_err();
    assert_eq!(e.code, ErrorCode::Internal);
    assert_eq!(e.message, "Mismatched response message received");
}
