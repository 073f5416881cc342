use ch_ewf::gov_talk::{
    begin_govtalk_transaction, classify, encode, exec_govtalk_transaction, extract_errors, local_error,
    step_govtalk_transaction, GovTalkError, GovTalkErrors, GovTalkSender, TransactionAction, TransactionEvent,
    TransactionState, CONTENT_TYPE, GATEWAY,
};
use ch_ewf::proto::document::GetDocument;
use ch_ewf::proto::govtalk::{
    GovTalkAuthenticationMethod, GovTalkBody, GovTalkDetails, GovTalkErrorType, GovTalkHeader, GovTalkMessage,
    GovTalkMessageDetails, GovTalkQualifier, GovTalkRoot, GovTalkSenderDetails,
};
use ch_ewf::time::Timestamp;

fn sender(is_test: bool) -> GovTalkSender {
    GovTalkSender::new("filer@example.com", "test", "hello", is_test)
}

fn request_body() -> GovTalkBody {
    GovTalkBody::GetDocument(GetDocument { document_request_key: "KEY1".to_string() })
}

fn reported(raised_by: &str, number: Option<i32>, text: Vec<&str>) -> ch_ewf::proto::govtalk::GovTalkError {
    ch_ewf::proto::govtalk::GovTalkError {
        raised_by: raised_by.to_string(),
        number,
        error_type: GovTalkErrorType::Business,
        text: text.into_iter().map(|t| t.to_string()).collect(),
        location: vec![],
    }
}

fn response(
    qualifier: GovTalkQualifier,
    timestamp: Option<Timestamp>,
    errors: Option<Vec<ch_ewf::proto::govtalk::GovTalkError>>,
    body: Option<GovTalkBody>,
) -> GovTalkRoot {
    GovTalkRoot {
        message: GovTalkMessage {
            envelope_version: "1.0".to_string(),
            header: GovTalkHeader {
                message_details: GovTalkMessageDetails {
                    class: "GetDocument".to_string(),
                    qualifier,
                    function: None,
                    transaction_id: Some("ABC".to_string()),
                    audit_id: None,
                    correlation_id: None,
                    response_endpoint: None,
                    transformation: None,
                    gateway_test: None,
                    gateway_timestamp: timestamp,
                },
                sender_details: None,
            },
            details: GovTalkDetails {
                keys: None,
                target_details: None,
                gateway_validation: None,
                channel_routing: vec![],
                errors: errors.map(|errors| ch_ewf::proto::govtalk::GovTalkErrors { errors }),
            },
            body,
        },
    }
}

fn opened() -> (String, GovTalkRoot) {
    let (state, action) = begin_govtalk_transaction(&sender(false), "GetDocument", request_body());
    let id = match state {
        TransactionState::Encoding { transaction_id } => transaction_id,
        other => panic!("unexpected state {:?}", other),
    };
    let root = match action {
        TransactionAction::Encode(root) => root,
        other => panic!("unexpected action {:?}", other),
    };
    (id, root)
}

#[test]
fn sender_keeps_secrets_as_md5_digests() {
    let details = GovTalkSenderDetails::from(&sender(false));
    assert_eq!(details.email_address, Some("filer@example.com".to_string()));
    let id = details.id_authentication.unwrap();
    assert_eq!(id.sender_id, Some("098f6bcd4621d373cade4e832627b4f6".to_string()));
    assert_eq!(id.authentication.len(), 1);
    assert_eq!(id.authentication[0].method, GovTalkAuthenticationMethod::Clear);
    assert_eq!(id.authentication[0].value, "5d41402abc4b2a76b9719d911017c592");
    assert_eq!(id.authentication[0].role, None);
}

#[test]
fn sender_digest_of_empty_secret() {
    let details = GovTalkSenderDetails::from(&GovTalkSender::new("", "", "", true));
    let id = details.id_authentication.unwrap();
    assert_eq!(id.sender_id, Some("d41d8cd98f00b204e9800998ecf8427e".to_string()));
    assert_eq!(id.authentication[0].value, "d41d8cd98f00b204e9800998ecf8427e");
}

#[test]
fn transaction_id_is_32_capital_hex_digits() {
    let (id, _) = opened();
    assert_eq!(id.len(), 32);
    assert!(id.chars().all(|c| c.is_ascii_digit() || ('A'..='F').contains(&c)));
}

#[test]
fn transaction_ids_differ_between_transactions() {
    let (first, _) = opened();
    let (second, _) = opened();
    assert_ne!(first, second);
}

#[test]
fn request_envelope_is_qualified_as_request() {
    let (id, root) = opened();
    let details = &root.message.header.message_details;
    assert_eq!(root.message.envelope_version, "1.0");
    assert_eq!(details.class, "GetDocument");
    assert_eq!(details.qualifier, GovTalkQualifier::Request);
    assert_eq!(details.function, None);
    assert_eq!(details.transaction_id, Some(id));
    assert_eq!(details.audit_id, None);
    assert_eq!(details.correlation_id, None);
    assert_eq!(details.gateway_test, None);
    assert_eq!(details.gateway_timestamp, None);
    assert!(root.message.details.errors.is_none());
    assert!(root.message.details.channel_routing.is_empty());
    match root.message.body {
        Some(GovTalkBody::GetDocument(request)) => assert_eq!(request.document_request_key, "KEY1"),
        other => panic!("unexpected body {:?}", other),
    }
    let block = root.message.header.sender_details.unwrap();
    assert_eq!(block.email_address, Some("filer@example.com".to_string()));
}

#[test]
fn test_mode_marks_the_envelope() {
    let root = encode(&sender(true), "StatusAck", GovTalkBody::GetStatusAck {}, "0A".to_string());
    assert_eq!(root.message.header.message_details.gateway_test, Some(1));
    assert_eq!(root.message.header.message_details.transaction_id, Some("0A".to_string()));
}

#[test]
fn encoded_request_is_posted_to_the_gateway() {
    let (id, _) = opened();
    let (state, action) = exec_govtalk_transaction(
        TransactionState::Encoding { transaction_id: id.clone() },
        TransactionEvent::Encoded(Ok("<xml/>".to_string())),
    );
    match state {
        TransactionState::Sending { transaction_id } => assert_eq!(transaction_id, id),
        other => panic!("unexpected state {:?}", other),
    }
    match action {
        TransactionAction::Post { url, content_type, payload } => {
            assert_eq!(url, "https://xmlgw.companieshouse.gov.uk/v1-0/xmlgw/Gateway");
            assert_eq!(url, GATEWAY);
            assert_eq!(content_type, "text/xml");
            assert_eq!(content_type, CONTENT_TYPE);
            assert_eq!(payload, "<xml/>");
        }
        other => panic!("unexpected action {:?}", other),
    }
}

#[test]
fn transport_failure_carries_the_transaction_id() {
    let (id, root) = opened();
    let (state, _) = exec_govtalk_transaction(
        TransactionState::Encoding { transaction_id: id },
        TransactionEvent::Encoded(Ok("<xml/>".to_string())),
    );
    let (state, action) =
        exec_govtalk_transaction(state, TransactionEvent::Sent(Err("connection refused".to_string())));
    assert!(matches!(state, TransactionState::Finished));
    match action {
        TransactionAction::Finish(Err(failure)) => {
            assert_eq!(Some(failure.transaction_id), root.message.header.message_details.transaction_id);
            assert_eq!(failure.errors.len(), 1);
            assert_eq!(failure.errors[0].raised_by, "transport");
            assert_eq!(failure.errors[0].code, 0);
            assert_eq!(failure.errors[0].msg, "connection refused");
        }
        other => panic!("unexpected action {:?}", other),
    }
}

#[test]
fn encoder_failure_ends_the_transaction() {
    let (state, action) = exec_govtalk_transaction(
        TransactionState::Encoding { transaction_id: "1F".to_string() },
        TransactionEvent::Encoded(Err("cannot write".to_string())),
    );
    assert!(matches!(state, TransactionState::Finished));
    match action {
        TransactionAction::Finish(Err(failure)) => {
            assert_eq!(failure.transaction_id, "1F");
            assert_eq!(failure.errors.len(), 1);
            assert_eq!(failure.errors[0].raised_by, "encoder");
            assert_eq!(failure.errors[0].code, 0);
            assert_eq!(failure.errors[0].msg, "cannot write");
        }
        other => panic!("unexpected action {:?}", other),
    }
}

#[test]
fn received_text_is_handed_to_the_decoder() {
    let (state, action) = exec_govtalk_transaction(
        TransactionState::Sending { transaction_id: "2B".to_string() },
        TransactionEvent::Sent(Ok("<answer/>".to_string())),
    );
    match state {
        TransactionState::Decoding { transaction_id } => assert_eq!(transaction_id, "2B"),
        other => panic!("unexpected state {:?}", other),
    }
    match action {
        TransactionAction::Decode(payload) => assert_eq!(payload, "<answer/>"),
        other => panic!("unexpected action {:?}", other),
    }
}

#[test]
fn decoder_failure_ends_the_transaction() {
    let (state, action) = exec_govtalk_transaction(
        TransactionState::Decoding { transaction_id: "3C".to_string() },
        TransactionEvent::Decoded(Err("not an envelope".to_string())),
    );
    assert!(matches!(state, TransactionState::Finished));
    match action {
        TransactionAction::Finish(Err(failure)) => {
            assert_eq!(failure.transaction_id, "3C");
            assert_eq!(failure.errors[0].raised_by, "decoder");
            assert_eq!(failure.errors[0].code, 0);
            assert_eq!(failure.errors[0].msg, "not an envelope");
        }
        other => panic!("unexpected action {:?}", other),
    }
}

#[test]
fn unexpected_event_ends_the_transaction() {
    let (state, action) = step_govtalk_transaction(
        TransactionState::Sending { transaction_id: "4D".to_string() },
        TransactionEvent::Encoded(Ok("<xml/>".to_string())),
        Timestamp { seconds: 0, nanos: 0 },
    );
    assert!(matches!(state, TransactionState::Finished));
    match action {
        TransactionAction::Finish(Err(failure)) => {
            assert_eq!(failure.transaction_id, "4D");
            assert_eq!(failure.errors[0].raised_by, "transport");
        }
        other => panic!("unexpected action {:?}", other),
    }
    let (state, action) = step_govtalk_transaction(
        TransactionState::Finished,
        TransactionEvent::Sent(Ok(String::new())),
        Timestamp { seconds: 0, nanos: 0 },
    );
    assert!(matches!(state, TransactionState::Finished));
    assert!(matches!(action, TransactionAction::Finish(Err(_))));
}

#[test]
fn error_qualifier_is_a_failure_even_without_errors() {
    let r = classify(
        "5E".to_string(),
        response(GovTalkQualifier::Error, None, None, None),
        Timestamp { seconds: 7, nanos: 0 },
    );
    let failure = r.unwrap_err();
    assert_eq!(failure.transaction_id, "5E");
    assert!(failure.errors.is_empty());
}

#[test]
fn error_qualifier_carries_the_reported_errors() {
    let r = classify(
        "5E".to_string(),
        response(
            GovTalkQualifier::Error,
            None,
            Some(vec![
                reported("FormSubmission", Some(9999), vec!["first", "second"]),
                reported("Gateway", None, vec![]),
            ]),
            Some(request_body()),
        ),
        Timestamp { seconds: 7, nanos: 0 },
    );
    let failure = r.unwrap_err();
    assert_eq!(failure.errors.len(), 2);
    assert_eq!(failure.errors[0].raised_by, "FormSubmission");
    assert_eq!(failure.errors[0].code, 9999);
    assert_eq!(failure.errors[0].msg, "first; second");
    assert_eq!(failure.errors[1].raised_by, "Gateway");
    assert_eq!(failure.errors[1].code, 0);
    assert_eq!(failure.errors[1].msg, "");
}

#[test]
fn other_qualifiers_are_a_success_with_warnings() {
    for qualifier in [
        GovTalkQualifier::Request,
        GovTalkQualifier::Acknowledgement,
        GovTalkQualifier::Response,
        GovTalkQualifier::Poll,
    ] {
        let r = classify(
            "6F".to_string(),
            response(
                qualifier,
                Some(Timestamp { seconds: 1600000000, nanos: 5 }),
                Some(vec![reported("Gateway", Some(12), vec!["careful"])]),
                Some(request_body()),
            ),
            Timestamp { seconds: 7, nanos: 0 },
        );
        let success = r.unwrap();
        assert_eq!(success.transaction_id, "6F");
        assert_eq!(success.gateway_timestamp, Timestamp { seconds: 1600000000, nanos: 5 });
        assert_eq!(success.warnings.len(), 1);
        assert_eq!(success.warnings[0].raised_by, "Gateway");
        assert_eq!(success.warnings[0].code, 12);
        assert_eq!(success.warnings[0].msg, "careful");
        assert!(matches!(success.body, Some(GovTalkBody::GetDocument(_))));
    }
}

#[test]
fn missing_gateway_timestamp_defaults_to_now() {
    let now = Timestamp { seconds: 1700000000, nanos: 42 };
    let r = classify("70".to_string(), response(GovTalkQualifier::Response, None, None, None), now);
    let success = r.unwrap();
    assert_eq!(success.gateway_timestamp, now);
    assert!(success.warnings.is_empty());
    assert!(success.body.is_none());
}

#[test]
fn decoded_response_uses_the_clock_when_no_timestamp_is_given() {
    let (state, action) = exec_govtalk_transaction(
        TransactionState::Decoding { transaction_id: "71".to_string() },
        TransactionEvent::Decoded(Ok(response(GovTalkQualifier::Response, None, None, None))),
    );
    assert!(matches!(state, TransactionState::Finished));
    match action {
        TransactionAction::Finish(Ok(success)) => {
            assert_eq!(success.transaction_id, "71");
            assert!(success.gateway_timestamp.seconds > 1600000000);
        }
        other => panic!("unexpected action {:?}", other),
    }
}

#[test]
fn result_and_error_never_come_together() {
    for qualifier in [
        GovTalkQualifier::Request,
        GovTalkQualifier::Acknowledgement,
        GovTalkQualifier::Response,
        GovTalkQualifier::Poll,
        GovTalkQualifier::Error,
    ] {
        let r = classify(
            "72".to_string(),
            response(qualifier, None, Some(vec![reported("Gateway", Some(1), vec!["x"])]), None),
            Timestamp { seconds: 0, nanos: 0 },
        );
        assert_eq!(r.is_err(), qualifier == GovTalkQualifier::Error);
    }
}

#[test]
fn extracted_errors_of_a_block_without_errors() {
    let root = response(GovTalkQualifier::Response, None, Some(vec![]), None);
    assert!(extract_errors(&root.message.details).is_empty());
    let root = response(GovTalkQualifier::Response, None, None, None);
    assert!(extract_errors(&root.message.details).is_empty());
}

#[test]
fn description_joins_messages() {
    let failure = GovTalkErrors {
        transaction_id: "73".to_string(),
        errors: vec![
            GovTalkError { raised_by: "a".to_string(), code: 1, msg: "one".to_string() },
            GovTalkError { raised_by: "b".to_string(), code: 2, msg: "two".to_string() },
            GovTalkError { raised_by: "c".to_string(), code: 3, msg: "three".to_string() },
        ],
    };
    assert_eq!(failure.description(), "one; two; three");
    let single = local_error("74".to_string(), "transport", "alone".to_string());
    assert_eq!(single.description(), "alone");
    let none = GovTalkErrors { transaction_id: "75".to_string(), errors: vec![] };
    assert_eq!(none.description(), "");
}

#[test]
fn all_have_code_checks_every_error() {
    let mut failure = GovTalkErrors {
        transaction_id: "76".to_string(),
        errors: vec![
            GovTalkError { raised_by: "a".to_string(), code: 8026, msg: String::new() },
            GovTalkError { raised_by: "b".to_string(), code: 8026, msg: String::new() },
        ],
    };
    assert!(failure.all_have_code(8026));
    assert!(!failure.all_have_code(1));
    failure.errors.push(GovTalkError { raised_by: "c".to_string(), code: 502, msg: String::new() });
    assert!(!failure.all_have_code(8026));
    failure.errors.clear();
    assert!(failure.all_have_code(8026));
}

#[test]
fn a_request_envelope_read_back_gives_its_body() {
    let root = ch_ewf::gov_talk::encode(&sender(false), "GetDocument", request_body(), "0123456789ABCDEF".to_string());
    let now = ch_ewf::time::Timestamp { seconds: 1700000000, nanos: 7 };
    let read = ch_ewf::gov_talk::classify("0123456789ABCDEF".to_string(), root, now).unwrap();
    assert_eq!(read.transaction_id, "0123456789ABCDEF");
    assert_eq!(read.gateway_timestamp, now);
    assert!(read.warnings.is_empty());
    assert_eq!(format!("{:?}", read.body), format!("{:?}", Some(request_body())));
}
