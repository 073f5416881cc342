use ch_ewf::ch_ewf_grpc::Timestamp as WireTimestamp;
use ch_ewf::grpc::submission::{chrono_to_proto, date_to_proto, proto_to_chrono, proto_to_date};
use ch_ewf::proto::base_types::CompanyType;
use ch_ewf::proto::company_data::CompanyDataRequest;
use ch_ewf::proto::govtalk::{
    poll_interval_default, BodyKind, Direction, GovTalkBody, ENVELOPE_NAMESPACE, HEADER_NAMESPACE, XMLGW_NAMESPACE,
};
use ch_ewf::proto::{
    deserialize_date_opt, deserialize_datetime_opt, is_false, serialize_date, serialize_date_opt, DateTimeVisitor,
    DateVisitor,
};
use ch_ewf::time::{Date, Timestamp};

const ALL_KINDS: [BodyKind; 18] = [
    BodyKind::CompanyDataRequest,
    BodyKind::CompanyData,
    BodyKind::MembersDataRequest,
    BodyKind::MembersData,
    BodyKind::PaymentPeriodsRequest,
    BodyKind::PaymentPeriods,
    BodyKind::GetERemindersRequest,
    BodyKind::SetERemindersRequest,
    BodyKind::EReminders,
    BodyKind::GetStatusAck,
    BodyKind::Status,
    BodyKind::GetSubmissionStatus,
    BodyKind::SubmissionStatus,
    BodyKind::GetDocument,
    BodyKind::Document,
    BodyKind::ChargeSearch,
    BodyKind::Charges,
    BodyKind::FormSubmission,
];

#[test]
fn every_kind_is_found_by_its_own_tag() {
    for kind in ALL_KINDS {
        assert_eq!(BodyKind::from_tag(kind.namespace(), kind.element()), Some(kind));
    }
}

#[test]
fn no_two_kinds_share_a_tag() {
    for (i, a) in ALL_KINDS.iter().enumerate() {
        for b in ALL_KINDS.iter().skip(i + 1) {
            assert!(a.namespace() != b.namespace() || a.element() != b.element());
        }
    }
}

#[test]
fn unknown_tags_name_no_kind() {
    assert_eq!(BodyKind::from_tag(ENVELOPE_NAMESPACE, "Unknown"), None);
    assert_eq!(BodyKind::from_tag("http://example.com", "Document"), None);
    assert_eq!(BodyKind::from_tag(XMLGW_NAMESPACE, "Document"), None);
    assert_eq!(BodyKind::from_tag(ENVELOPE_NAMESPACE, "document"), None);
    assert_eq!(BodyKind::from_tag("", ""), None);
}

#[test]
fn tags_of_the_status_and_document_bodies() {
    assert_eq!(BodyKind::GetSubmissionStatus.namespace(), "http://xmlgw.companieshouse.gov.uk");
    assert_eq!(BodyKind::GetSubmissionStatus.element(), "GetSubmissionStatus");
    assert_eq!(
        BodyKind::GetSubmissionStatus.schema_location(),
        Some("http://xmlgw.companieshouse.gov.uk/v1-0/schema/forms/GetSubmissionStatus-v2-9.xsd")
    );
    assert_eq!(BodyKind::SubmissionStatus.namespace(), "http://www.govtalk.gov.uk/CM/envelope");
    assert_eq!(BodyKind::SubmissionStatus.element(), "SubmissionStatus");
    assert_eq!(BodyKind::SubmissionStatus.schema_location(), None);
    assert_eq!(BodyKind::GetStatusAck.element(), "StatusAck");
    assert_eq!(BodyKind::Status.element(), "status");
    assert_eq!(BodyKind::FormSubmission.namespace(), HEADER_NAMESPACE);
    assert_eq!(BodyKind::FormSubmission.namespace(), "http://xmlgw.companieshouse.gov.uk/Header");
    assert_eq!(BodyKind::MembersDataRequest.element(), "MembersRegisterDataRequest");
}

#[test]
fn requests_go_out_and_responses_come_back() {
    let requests = [
        BodyKind::CompanyDataRequest,
        BodyKind::MembersDataRequest,
        BodyKind::PaymentPeriodsRequest,
        BodyKind::GetERemindersRequest,
        BodyKind::SetERemindersRequest,
        BodyKind::GetStatusAck,
        BodyKind::GetSubmissionStatus,
        BodyKind::GetDocument,
        BodyKind::ChargeSearch,
        BodyKind::FormSubmission,
    ];
    for kind in ALL_KINDS {
        let expected = if requests.contains(&kind) { Direction::Request } else { Direction::Response };
        assert_eq!(kind.direction(), expected);
        if kind.schema_location().is_some() {
            assert_eq!(kind.direction(), Direction::Request);
        }
    }
}

#[test]
fn body_knows_its_kind() {
    assert_eq!(GovTalkBody::GetStatusAck {}.kind(), BodyKind::GetStatusAck);
    assert_eq!(GovTalkBody::Status {}.kind(), BodyKind::Status);
    let body = GovTalkBody::CompanyDataRequest(CompanyDataRequest {
        company_number: 1,
        company_type: None,
        company_authentication_code: "A1B2C3".to_string(),
        made_up_date: Date { days_from_ce: 738000 },
    });
    assert_eq!(body.kind(), BodyKind::CompanyDataRequest);
}

#[test]
fn poll_interval_defaults_to_two() {
    assert_eq!(poll_interval_default(), 2);
}

#[test]
fn flags_that_are_off_are_left_out() {
    assert!(is_false(&false));
    assert!(!is_false(&true));
}

#[test]
fn company_type_prefixes() {
    assert_eq!(CompanyType::EW.to_string(), "");
    assert_eq!(CompanyType::SC.to_string(), "SC");
    assert_eq!(CompanyType::NI.to_string(), "NI");
    assert_eq!(CompanyType::R.to_string(), "R");
    assert_eq!(CompanyType::OC.to_string(), "OC");
    assert_eq!(CompanyType::SO.to_string(), "SO");
    assert_eq!(CompanyType::NC.to_string(), "NC");
}

#[test]
fn times_are_read_in_three_forms() {
    let expected = Timestamp { seconds: 1609459200, nanos: 0 };
    assert_eq!(DateTimeVisitor.visit_str("2021-01-01T00:00:00Z"), Ok(expected));
    assert_eq!(DateTimeVisitor.visit_str("2021-01-01T01:00:00+01:00"), Ok(expected));
    assert_eq!(DateTimeVisitor.visit_str("2021-01-01T00:00:00"), Ok(expected));
    assert_eq!(
        DateTimeVisitor.visit_str("2021-01-01T00:00:00.250"),
        Ok(Timestamp { seconds: 1609459200, nanos: 250000000 })
    );
    assert_eq!(
        DateTimeVisitor.visit_str("1969-12-31T23:59:59"),
        Ok(Timestamp { seconds: -1, nanos: 0 })
    );
}

#[test]
fn unreadable_times_are_errors() {
    assert!(DateTimeVisitor.visit_str("yesterday").is_err());
    assert!(DateTimeVisitor.visit_str("").is_err());
    assert!(DateTimeVisitor.visit_str("2021-13-01T00:00:00").is_err());
    assert!(!DateTimeVisitor.visit_str("2021-01-01").unwrap_err().is_empty());
}

#[test]
fn dates_are_read_as_year_month_day() {
    assert_eq!(DateVisitor.visit_str("1970-01-01"), Ok(Date { days_from_ce: 719163 }));
    assert_eq!(DateVisitor.visit_str("0001-01-01"), Ok(Date { days_from_ce: 1 }));
    assert_eq!(DateVisitor.visit_str("2021-06-15"), Ok(Date { days_from_ce: 737956 }));
    assert!(DateVisitor.visit_str("2021-02-30").is_err());
    assert!(DateVisitor.visit_str("15/06/2021").is_err());
    assert!(DateVisitor.visit_str("").is_err());
}

#[test]
fn dates_are_written_as_year_month_day() {
    assert_eq!(serialize_date(&Date { days_from_ce: 719163 }), Some("1970-01-01".to_string()));
    assert_eq!(serialize_date(&Date { days_from_ce: 737956 }), Some("2021-06-15".to_string()));
    assert_eq!(serialize_date(&Date { days_from_ce: i32::MAX }), None);
    assert_eq!(serialize_date_opt(&None), None);
    assert_eq!(serialize_date_opt(&Some(Date { days_from_ce: 1 })), Some(Some("0001-01-01".to_string())));
}

#[test]
fn written_dates_read_back() {
    for days in [1, 700000, 719163, 737956, 750000] {
        let text = serialize_date(&Date { days_from_ce: days }).unwrap();
        assert_eq!(DateVisitor.visit_str(&text), Ok(Date { days_from_ce: days }));
    }
}

#[test]
fn year_one_means_no_time_given() {
    let unset = Timestamp { seconds: -62135596800, nanos: 0 };
    assert_eq!(DateTimeVisitor.visit_str("0001-01-01T00:00:00"), Ok(unset));
    assert!(unset.is_unset());
    assert_eq!(deserialize_datetime_opt(Some(unset)), None);
    assert_eq!(deserialize_datetime_opt(None), None);
    let almost = Timestamp { seconds: -62135596800, nanos: 1 };
    assert_eq!(deserialize_datetime_opt(Some(almost)), Some(almost));
    let later = Timestamp { seconds: 0, nanos: 0 };
    assert_eq!(deserialize_datetime_opt(Some(later)), Some(later));
}

#[test]
fn day_one_means_no_date_given() {
    assert!(Date { days_from_ce: 1 }.is_unset());
    assert_eq!(deserialize_date_opt(Some(Date { days_from_ce: 1 })), None);
    assert_eq!(deserialize_date_opt(None), None);
    assert_eq!(deserialize_date_opt(Some(Date { days_from_ce: 2 })), Some(Date { days_from_ce: 2 }));
}

#[test]
fn instants_fall_on_utc_dates() {
    assert_eq!(Timestamp { seconds: 0, nanos: 0 }.date(), Some(Date { days_from_ce: 719163 }));
    assert_eq!(Timestamp { seconds: 86399, nanos: 999 }.date(), Some(Date { days_from_ce: 719163 }));
    assert_eq!(Timestamp { seconds: 86400, nanos: 0 }.date(), Some(Date { days_from_ce: 719164 }));
    assert_eq!(Timestamp { seconds: -1, nanos: 0 }.date(), Some(Date { days_from_ce: 719162 }));
    assert_eq!(Timestamp { seconds: -86400, nanos: 0 }.date(), Some(Date { days_from_ce: 719162 }));
    assert_eq!(Timestamp { seconds: -86401, nanos: 0 }.date(), Some(Date { days_from_ce: 719161 }));
    assert_eq!(Timestamp { seconds: 1623715200, nanos: 0 }.date(), Some(Date { days_from_ce: 737956 }));
    assert_eq!(Timestamp { seconds: i64::MAX, nanos: 0 }.date(), None);
    assert_eq!(Timestamp { seconds: i64::MIN, nanos: 0 }.date(), None);
}

#[test]
fn dates_begin_at_midnight() {
    assert_eq!(Date { days_from_ce: 719163 }.midnight(), Timestamp { seconds: 0, nanos: 0 });
    assert_eq!(Date { days_from_ce: 719164 }.midnight(), Timestamp { seconds: 86400, nanos: 0 });
    assert_eq!(Date { days_from_ce: 737956 }.midnight(), Timestamp { seconds: 1623715200, nanos: 0 });
    assert_eq!(Date { days_from_ce: 1 }.midnight(), Timestamp { seconds: -62135596800, nanos: 0 });
    for days in [i32::MIN, -1, 0, 1, 719163, i32::MAX] {
        let date = Date { days_from_ce: days };
        assert_eq!(date.midnight().date(), Some(date));
    }
}

#[test]
fn instants_go_on_the_wire_and_back() {
    assert_eq!(chrono_to_proto(None), None);
    assert_eq!(
        chrono_to_proto(Some(Timestamp { seconds: 5, nanos: 7 })),
        Some(WireTimestamp { seconds: 5, nanos: 7 })
    );
    assert_eq!(
        chrono_to_proto(Some(Timestamp { seconds: 5, nanos: u32::MAX })),
        Some(WireTimestamp { seconds: 5, nanos: -1 })
    );
    assert_eq!(proto_to_chrono(None), None);
    assert_eq!(
        proto_to_chrono(Some(WireTimestamp { seconds: 1623715200, nanos: 12 })),
        Some(Timestamp { seconds: 1623715200, nanos: 12 })
    );
    assert_eq!(proto_to_chrono(Some(WireTimestamp { seconds: 0, nanos: -1 })), None);
    assert_eq!(proto_to_chrono(Some(WireTimestamp { seconds: 0, nanos: 2000000000 })), None);
    assert_eq!(proto_to_chrono(Some(WireTimestamp { seconds: i64::MAX, nanos: 0 })), None);
    assert_eq!(proto_to_chrono(Some(WireTimestamp { seconds: i64::MIN, nanos: 0 })), None);
}

#[test]
fn wire_instants_name_dates() {
    assert_eq!(proto_to_date(None), None);
    assert_eq!(
        proto_to_date(Some(WireTimestamp { seconds: 1623715200 + 3600, nanos: 0 })),
        Some(Date { days_from_ce: 737956 })
    );
    assert_eq!(proto_to_date(Some(WireTimestamp { seconds: 0, nanos: -5 })), None);
    assert_eq!(date_to_proto(Date { days_from_ce: 737956 }), WireTimestamp { seconds: 1623715200, nanos: 0 });
    assert_eq!(
        proto_to_date(Some(date_to_proto(Date { days_from_ce: 700000 }))),
        Some(Date { days_from_ce: 700000 })
    );
}

#[test]
fn every_request_names_its_schema_and_no_response_does() {
    let base = "http://xmlgw.companieshouse.gov.uk/v1-0/schema/";
    for (kind, file) in [
        (BodyKind::CompanyDataRequest, Some("CompanyData-v3-4.xsd")),
        (BodyKind::CompanyData, None),
        (BodyKind::MembersDataRequest, Some("MembersRegisterData-v1-0.xsd")),
        (BodyKind::MembersData, None),
        (BodyKind::PaymentPeriodsRequest, Some("PaymentPeriods-v1-0.xsd")),
        (BodyKind::PaymentPeriods, None),
        (BodyKind::GetERemindersRequest, Some("EReminders-v1-0.xsd")),
        (BodyKind::SetERemindersRequest, Some("EReminders-v1-0.xsd")),
        (BodyKind::EReminders, None),
        (BodyKind::GetStatusAck, Some("forms/GetStatusAck-v1-1.xsd")),
        (BodyKind::Status, None),
        (BodyKind::GetSubmissionStatus, Some("forms/GetSubmissionStatus-v2-9.xsd")),
        (BodyKind::SubmissionStatus, None),
        (BodyKind::GetDocument, Some("forms/GetDocument-v1-1.xsd")),
        (BodyKind::Document, None),
        (BodyKind::ChargeSearch, Some("ChargeSearch-v2-8.xsd")),
        (BodyKind::Charges, None),
        (BodyKind::FormSubmission, Some("forms/FormSubmission-v2-11.xsd")),
    ] {
        assert_eq!(kind.schema_location().map(|s| s.to_string()), file.map(|f| format!("{}{}", base, f)));
        assert_eq!(kind.schema_location().is_some(), kind.direction() == Direction::Request);
    }
}

#[test]
fn instants_are_taken_as_far_as_the_calendar_reaches() {
    let at = |seconds: i64, nanos: i32| proto_to_chrono(Some(ch_ewf::ch_ewf_grpc::Timestamp { seconds, nanos }));
    let first: i64 = -8334601228800;
    let last: i64 = 8210266876799;
    assert_eq!(at(first, 0), Some(Timestamp { seconds: first, nanos: 0 }));
    assert_eq!(at(first - 1, 0), None);
    assert_eq!(at(first - 1, 999_999_999), None);
    assert_eq!(at(last, 999_999_999), Some(Timestamp { seconds: last, nanos: 999_999_999 }));
    assert_eq!(at(last + 1, 0), None);
    assert_eq!(at(i64::MIN, 0), None);
    assert_eq!(at(i64::MAX, 0), None);
    assert_eq!(proto_to_date(Some(ch_ewf::ch_ewf_grpc::Timestamp { seconds: first, nanos: 0 })),
        Some(Date { days_from_ce: -95746129 }));
    assert_eq!(proto_to_date(Some(ch_ewf::ch_ewf_grpc::Timestamp { seconds: last, nanos: 0 })),
        Some(Date { days_from_ce: 95745399 }));
}

#[test]
fn nanoseconds_beyond_a_second_are_taken_in_the_last_second_of_a_minute_only() {
    let at = |seconds: i64, nanos: i32| proto_to_chrono(Some(ch_ewf::ch_ewf_grpc::Timestamp { seconds, nanos }));
    assert_eq!(at(59, 1_500_000_000), Some(Timestamp { seconds: 59, nanos: 1_500_000_000 }));
    assert_eq!(at(59, 1_999_999_999), Some(Timestamp { seconds: 59, nanos: 1_999_999_999 }));
    assert_eq!(at(59, 2_000_000_000), None);
    assert_eq!(at(58, 1_000_000_000), None);
    assert_eq!(at(60, 1_000_000_000), None);
    assert_eq!(at(-1, 1_000_000_000), Some(Timestamp { seconds: -1, nanos: 1_000_000_000 }));
    assert_eq!(at(-2, 1_000_000_000), None);
    assert_eq!(at(86399, 1_000_000_000), Some(Timestamp { seconds: 86399, nanos: 1_000_000_000 }));
    assert_eq!(at(0, 999_999_999), Some(Timestamp { seconds: 0, nanos: 999_999_999 }));
    assert_eq!(at(0, -1), None);
    assert_eq!(at(59, i32::MIN), None);
}
