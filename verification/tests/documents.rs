use ch_ewf::gov_talk::{GovTalkError, GovTalkErrors, GovTalkResponse};
use ch_ewf::grpc::{extension, prepare_document, CHFillingService, FetchAction, FetchError, FetchEvent, FetchState};
use ch_ewf::proto::document::{ContentEncoding, ContentType, Document, DocumentData};
use ch_ewf::proto::govtalk::GovTalkBody;
use ch_ewf::store::Store;
use ch_ewf::time::{Date, Timestamp};

fn document(contents: &str) -> Document {
    Document {
        company_number: "01234567".to_string(),
        document_date: Some(Date { days_from_ce: 737000 }),
        document_type: Some("NEWINC".to_string()),
        document_id: "REMOTE-1".to_string(),
        document_data: DocumentData {
            content_type: ContentType::Pdf,
            content_encoding: ContentEncoding::Base64,
            filename: Some("certificate.pdf".to_string()),
            contents: contents.to_string(),
        },
    }
}

fn answered(body: Option<GovTalkBody>) -> FetchEvent {
    FetchEvent::Transaction(Ok(GovTalkResponse {
        transaction_id: "EF56".to_string(),
        gateway_timestamp: Timestamp { seconds: 1700000000, nanos: 0 },
        warnings: vec![],
        body,
    }))
}

/// Fetches the document behind `key` into `store`, with the registry
/// answering `body` and every write succeeding.
fn fetch(store: &mut Store, key: &str, body: Document) -> Result<u128, FetchError> {
    let (state, action) = CHFillingService::begin_get_document(key);
    match action {
        FetchAction::Execute { class, body } => {
            assert_eq!(class, "GetDocument");
            match body {
                GovTalkBody::GetDocument(request) => assert_eq!(request.document_request_key, key),
                other => panic!("unexpected body {:?}", other),
            }
        }
        other => panic!("unexpected action {:?}", other),
    }
    let (mut state, mut action) = CHFillingService::get_document(state, answered(Some(GovTalkBody::Document(body))));
    loop {
        let event = match action {
            FetchAction::Write { .. } => FetchEvent::Written(Ok(())),
            FetchAction::Insert(row) => {
                store.insert_document(row);
                FetchEvent::Inserted(Ok(()))
            }
            FetchAction::Finish(r) => return r,
            other => panic!("unexpected action {:?}", other),
        };
        let next = CHFillingService::get_document(state, event);
        state = next.0;
        action = next.1;
    }
}

#[test]
fn pdf_is_the_only_extension() {
    assert_eq!(extension(ContentType::Pdf), "pdf");
}

#[test]
fn content_is_decoded_after_newlines_are_stripped() {
    let (row, data) = prepare_document(document("aGVsbG8g\nd29y\nbGQ=\n"), 1, 2, Date { days_from_ce: 1 }).unwrap();
    assert_eq!(data, b"hello world");
    assert_eq!(row.id, 2);
    assert_eq!(row.company_number, "01234567");
    assert_eq!(row.document_date, Date { days_from_ce: 737000 });
    assert_eq!(row.document_type, "NEWINC");
    assert_eq!(row.document_id, "REMOTE-1");
    assert_eq!(row.document_filename, "certificate.pdf");
    assert_eq!(row.storage_filename, "00000000-0000-0000-0000-000000000001.pdf");
}

#[test]
fn storage_filename_is_the_hyphenated_identifier() {
    let id = 0x936DA01F9ABD4D9D80C702AF85C822A8u128;
    let (row, data) = prepare_document(document(""), id, 2, Date { days_from_ce: 1 }).unwrap();
    assert!(data.is_empty());
    assert_eq!(row.storage_filename, "936da01f-9abd-4d9d-80c7-02af85c822a8.pdf");
}

#[test]
fn missing_optional_fields_get_defaults() {
    let mut body = document("QQ==");
    body.document_date = None;
    body.document_type = None;
    body.document_data.filename = None;
    let (row, data) = prepare_document(body, 1, 2, Date { days_from_ce: 738500 }).unwrap();
    assert_eq!(data, b"A");
    assert_eq!(row.document_date, Date { days_from_ce: 738500 });
    assert_eq!(row.document_type, "");
    assert_eq!(row.document_filename, "");
}

#[test]
fn invalid_base64_is_a_fetch_error() {
    let r = prepare_document(document("not base64!"), 1, 2, Date { days_from_ce: 1 });
    match r {
        Err(FetchError::InvalidEncoding(reason)) => {
            assert!(!reason.is_empty());
            let error = FetchError::InvalidEncoding(reason.clone());
            assert_eq!(error.message(), format!("Invalid document encoding: {}", reason));
        }
        other => panic!("unexpected result {:?}", other),
    }
}

#[test]
fn spaces_are_not_stripped() {
    assert!(matches!(
        prepare_document(document("aGVs bG8="), 1, 2, Date { days_from_ce: 1 }),
        Err(FetchError::InvalidEncoding(_))
    ));
}

#[test]
fn fetch_error_messages() {
    let failure = GovTalkErrors {
        transaction_id: "AB12".to_string(),
        errors: vec![
            GovTalkError { raised_by: "x".to_string(), code: 1, msg: "first".to_string() },
            GovTalkError { raised_by: "y".to_string(), code: 2, msg: "second".to_string() },
        ],
    };
    assert_eq!(
        FetchError::Transaction(failure).message(),
        "Unable to get document: first; second, (trans ID: AB12)"
    );
    assert_eq!(FetchError::MismatchedResponse.message(), "Mismatched response body received for document");
    assert_eq!(FetchError::Write("disk full".to_string()).message(), "Unable to save document: disk full");
    assert_eq!(FetchError::Store("no connection".to_string()).message(), "Unable to access DB: no connection");
}

#[test]
fn fetch_writes_the_file_before_the_row() {
    let (state, _) = CHFillingService::begin_get_document("KEY");
    let (state, action) = CHFillingService::step_get_document(
        state,
        answered(Some(GovTalkBody::Document(document("QUJD")))),
        0x11,
        0x22,
        Date { days_from_ce: 5 },
    );
    match &action {
        FetchAction::Write { filename, data } => {
            assert_eq!(filename, "00000000-0000-0000-0000-000000000011.pdf");
            assert_eq!(data, b"ABC");
        }
        other => panic!("unexpected action {:?}", other),
    }
    let (state, action) = CHFillingService::get_document(state, FetchEvent::Written(Ok(())));
    match &action {
        FetchAction::Insert(row) => {
            assert_eq!(row.id, 0x22);
            assert_eq!(row.storage_filename, "00000000-0000-0000-0000-000000000011.pdf");
        }
        other => panic!("unexpected action {:?}", other),
    }
    match &state {
        FetchState::Inserting { document_id } => assert_eq!(*document_id, 0x22),
        other => panic!("unexpected state {:?}", other),
    }
    let (state, action) = CHFillingService::get_document(state, FetchEvent::Inserted(Ok(())));
    assert!(matches!(state, FetchState::Finished));
    match action {
        FetchAction::Finish(Ok(id)) => assert_eq!(id, 0x22),
        other => panic!("unexpected action {:?}", other),
    }
}

#[test]
fn failed_transaction_is_a_fetch_error() {
    let (state, _) = CHFillingService::begin_get_document("KEY");
    let failure = GovTalkErrors { transaction_id: "AB12".to_string(), errors: vec![] };
    let (state, action) = CHFillingService::get_document(state, FetchEvent::Transaction(Err(failure)));
    assert!(matches!(state, FetchState::Finished));
    match action {
        FetchAction::Finish(Err(FetchError::Transaction(e))) => assert_eq!(e.transaction_id, "AB12"),
        other => panic!("unexpected action {:?}", other),
    }
}

#[test]
fn other_body_is_a_mismatched_response() {
    for body in [None, Some(GovTalkBody::Status {})] {
        let (state, _) = CHFillingService::begin_get_document("KEY");
        let (state, action) = CHFillingService::get_document(state, answered(body));
        assert!(matches!(state, FetchState::Finished));
        assert!(matches!(action, FetchAction::Finish(Err(FetchError::MismatchedResponse))));
    }
}

#[test]
fn failed_write_ends_the_fetch_without_a_row() {
    let (state, _) = CHFillingService::begin_get_document("KEY");
    let (state, _) = CHFillingService::get_document(state, answered(Some(GovTalkBody::Document(document("QUJD")))));
    let (state, action) = CHFillingService::get_document(state, FetchEvent::Written(Err("disk full".to_string())));
    assert!(matches!(state, FetchState::Finished));
    match action {
        FetchAction::Finish(Err(FetchError::Write(reason))) => assert_eq!(reason, "disk full"),
        other => panic!("unexpected action {:?}", other),
    }
}

#[test]
fn failed_insert_ends_the_fetch() {
    let (state, action) = CHFillingService::get_document(
        FetchState::Inserting { document_id: 3 },
        FetchEvent::Inserted(Err("unique violation".to_string())),
    );
    assert!(matches!(state, FetchState::Finished));
    match action {
        FetchAction::Finish(Err(FetchError::Store(reason))) => assert_eq!(reason, "unique violation"),
        other => panic!("unexpected action {:?}", other),
    }
}

#[test]
fn unexpected_fetch_event_ends_the_fetch() {
    let (state, action) = CHFillingService::get_document(FetchState::Requesting, FetchEvent::Written(Ok(())));
    assert!(matches!(state, FetchState::Finished));
    assert!(matches!(action, FetchAction::Finish(Err(FetchError::MismatchedResponse))));
}

#[test]
fn fetching_the_same_key_twice_makes_two_documents() {
    let mut store = Store::new();
    let first = fetch(&mut store, "SAMEKEY", document("QUJD")).unwrap();
    let second = fetch(&mut store, "SAMEKEY", document("QUJD")).unwrap();
    assert_ne!(first, second);
    assert_eq!(store.documents.len(), 2);
    assert_eq!(store.documents[0].id, first);
    assert_eq!(store.documents[1].id, second);
    assert_ne!(store.documents[0].storage_filename, store.documents[1].storage_filename);
    assert_eq!(store.documents[0].document_id, store.documents[1].document_id);
    assert!(store.documents[0].storage_filename.ends_with(".pdf"));
    assert_eq!(store.documents[0].storage_filename.len(), 40);
}
