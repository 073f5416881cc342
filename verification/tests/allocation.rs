use ch_ewf::error::ErrorCode;
use ch_ewf::grpc::{AllocatorAction, CHFillingService};
use ch_ewf::models::Submission;
use ch_ewf::schema::Status;
use ch_ewf::store::Store;
use ch_ewf::text::{join, len, parse_u32, remove_all, same, u32_text};
use ch_ewf::time::Timestamp;

fn submission(id: u128, number: &str, received: i64, status: Status) -> Submission {
    Submission {
        id,
        ch_submission_id: number.to_string(),
        company_number: None,
        received_timestamp: Timestamp { seconds: received, nanos: 0 },
        customer_reference: None,
        status,
        reject_reference: None,
        examiner_telephone: None,
        examiner_comment: None,
        document_id: None,
        incorporation_date: None,
        authentication_code: None,
        charge_code: None,
    }
}

fn is_number(s: &str) -> bool {
    s.len() == 6 && s.chars().all(|c| c.is_ascii_digit() || c.is_ascii_uppercase())
}

const NOW: Timestamp = Timestamp { seconds: 1700000000, nanos: 500 };

#[test]
fn drawn_numbers_are_six_capital_alphanumerics() {
    for _ in 0..200 {
        assert!(is_number(&CHFillingService::draw_submission_number()));
    }
}

#[test]
fn drawn_numbers_vary() {
    let first = CHFillingService::draw_submission_number();
    assert!((0..20).any(|_| CHFillingService::draw_submission_number() != first));
}

#[test]
fn allocation_starts_by_counting_a_candidate() {
    match CHFillingService::begin_gen_submission_number(NOW) {
        AllocatorAction::CountRecent { submission_number, since } => {
            assert!(is_number(&submission_number));
            assert_eq!(since, Timestamp { seconds: 1700000000 - 30 * 24 * 60 * 60, nanos: 500 });
        }
        other => panic!("unexpected action {:?}", other),
    }
}

#[test]
fn zero_count_returns_the_candidate() {
    match CHFillingService::gen_submission_number("ABC123".to_string(), Ok(0), NOW) {
        AllocatorAction::Finish(Ok(number)) => assert_eq!(number, "ABC123"),
        other => panic!("unexpected action {:?}", other),
    }
}

#[test]
fn nonzero_count_redraws() {
    for n in [1i64, 2, -1] {
        match CHFillingService::gen_submission_number("ABC123".to_string(), Ok(n), NOW) {
            AllocatorAction::CountRecent { submission_number, since } => {
                assert!(is_number(&submission_number));
                assert_eq!(since, Timestamp { seconds: 1697408000, nanos: 500 });
            }
            other => panic!("unexpected action {:?}", other),
        }
    }
}

#[test]
fn failed_count_is_an_internal_error() {
    match CHFillingService::gen_submission_number("ABC123".to_string(), Err("broken pipe".to_string()), NOW) {
        AllocatorAction::Finish(Err(e)) => {
            assert_eq!(e.code, ErrorCode::Internal);
            assert_eq!(e.message, "Unable to access DB: broken pipe");
        }
        other => panic!("unexpected action {:?}", other),
    }
}

#[test]
fn allocation_against_a_store_avoids_recent_numbers() {
    let mut store = Store::new();
    store.insert_submission(submission(1, "AAAAAA", NOW.seconds - 10, Status::Pending));
    store.insert_submission(submission(2, "BBBBBB", NOW.seconds - 40 * 86400, Status::Accepted));
    for _ in 0..50 {
        let number = store.gen_submission_number(NOW, 1000).unwrap();
        assert!(is_number(&number));
        assert_ne!(number, "AAAAAA");
        assert_eq!(store.count_recent(&number, NOW.window_start()), 0);
    }
}

#[test]
fn allocation_without_attempts_gives_nothing() {
    assert_eq!(Store::new().gen_submission_number(NOW, 0), None);
}

#[test]
fn allocation_on_an_empty_store_succeeds_at_once() {
    assert!(Store::new().gen_submission_number(NOW, 1).is_some());
}

#[test]
fn recent_count_observes_the_thirty_day_window() {
    let mut store = Store::new();
    let since = NOW.window_start();
    store.insert_submission(submission(1, "AAAAAA", since.seconds, Status::Pending));
    store.insert_submission(submission(2, "AAAAAA", since.seconds - 1, Status::Pending));
    store.insert_submission(submission(3, "AAAAAA", NOW.seconds, Status::Rejected));
    store.insert_submission(submission(4, "BBBBBB", NOW.seconds, Status::Pending));
    assert_eq!(store.count_recent("AAAAAA", since), 1);
    assert_eq!(store.count_recent("AAAAAA", Timestamp { seconds: since.seconds, nanos: 0 }), 2);
    assert_eq!(store.count_recent("BBBBBB", since), 1);
    assert_eq!(store.count_recent("CCCCCC", since), 0);
    assert_eq!(store.count_pending(), 3);
}

#[test]
fn window_start_is_thirty_days_earlier() {
    assert_eq!(Timestamp { seconds: 2592000, nanos: 7 }.window_start(), Timestamp { seconds: 0, nanos: 7 });
    assert_eq!(
        Timestamp { seconds: i64::MIN + 5, nanos: 7 }.window_start(),
        Timestamp { seconds: i64::MIN, nanos: 0 }
    );
    assert_eq!(
        Timestamp { seconds: i64::MIN + 2592000, nanos: 7 }.window_start(),
        Timestamp { seconds: i64::MIN, nanos: 7 }
    );
}

#[test]
fn timestamps_compare_by_seconds_then_nanos() {
    let t = Timestamp { seconds: 10, nanos: 5 };
    assert!(t.at_or_after(t));
    assert!(t.at_or_after(Timestamp { seconds: 10, nanos: 4 }));
    assert!(!t.at_or_after(Timestamp { seconds: 10, nanos: 6 }));
    assert!(t.at_or_after(Timestamp { seconds: 9, nanos: 999 }));
    assert!(!t.at_or_after(Timestamp { seconds: 11, nanos: 0 }));
}

#[test]
fn find_returns_the_first_match() {
    let mut store = Store::new();
    store.insert_submission(submission(1, "AAAAAA", 0, Status::Pending));
    store.insert_submission(submission(2, "BBBBBB", 0, Status::Pending));
    store.insert_submission(submission(3, "BBBBBB", 0, Status::Pending));
    assert_eq!(store.find("BBBBBB").unwrap().id, 2);
    assert!(store.find("CCCCCC").is_none());
    assert!(store.find("").is_none());
}

#[test]
fn persist_replaces_the_row_of_the_same_identifier() {
    let mut store = Store::new();
    store.insert_submission(submission(1, "AAAAAA", 0, Status::Pending));
    store.insert_submission(submission(2, "BBBBBB", 0, Status::Pending));
    let mut changed = submission(2, "BBBBBB", 0, Status::Accepted);
    changed.company_number = Some("01234567".to_string());
    store.persist(changed, vec![]);
    assert_eq!(store.submissions.len(), 2);
    assert_eq!(store.submissions[0].status, Status::Pending);
    assert_eq!(store.submissions[1].status, Status::Accepted);
    assert_eq!(store.submissions[1].company_number, Some("01234567".to_string()));
    store.persist(submission(9, "ZZZZZZ", 0, Status::Parked), vec![]);
    assert_eq!(store.submissions.len(), 2);
    assert_eq!(store.submissions[0].status, Status::Pending);
    assert_eq!(store.submissions[1].status, Status::Accepted);
}

#[test]
fn authentication_code_is_six_to_eight_bytes() {
    assert!(CHFillingService::check_authentication_code("12345").is_err());
    assert!(CHFillingService::check_authentication_code("123456").is_ok());
    assert!(CHFillingService::check_authentication_code("1234567").is_ok());
    assert!(CHFillingService::check_authentication_code("12345678").is_ok());
    let e = CHFillingService::check_authentication_code("123456789").unwrap_err();
    assert_eq!(e.code, ErrorCode::InvalidArgument);
    assert_eq!(e.message, "Company authentication code of the wrong length");
    assert!(CHFillingService::check_authentication_code("").is_err());
    assert!(CHFillingService::check_authentication_code("éééé").is_ok());
    assert!(CHFillingService::check_authentication_code("ééééé").is_err());
}

#[test]
fn join_puts_the_separator_between_parts() {
    assert_eq!(join(&vec![], "; "), "");
    assert_eq!(join(&vec!["a".to_string()], "; "), "a");
    assert_eq!(join(&vec!["a".to_string(), "".to_string(), "c".to_string()], "; "), "a; ; c");
}

#[test]
fn remove_all_takes_out_every_occurrence() {
    assert_eq!(remove_all("a\nb\n\nc\n", '\n'), "abc");
    assert_eq!(remove_all("", '\n'), "");
    assert_eq!(remove_all("\n\n", '\n'), "");
    assert_eq!(remove_all("日本\n語", '\n'), "日本語");
}

#[test]
fn same_compares_contents() {
    assert!(same("", ""));
    assert!(same("abc", "abc"));
    assert!(!same("abc", "abd"));
    assert!(!same("abc", "ab"));
    assert!(!same("ABC", "abc"));
}

#[test]
fn len_counts_bytes() {
    assert_eq!(len(""), 0);
    assert_eq!(len("abc"), 3);
    assert_eq!(len("é"), 2);
}

#[test]
fn numbers_are_written_as_their_display_writes_them() {
    for n in [0u32, 1, 9, 10, 11, 99, 100, 101, 1234567, 999999999, 1000000000, 4294967294, u32::MAX] {
        assert_eq!(u32_text(n), n.to_string());
    }
    assert_eq!(u32_text(0), "0");
    assert_eq!(u32_text(4294967295), "4294967295");
    assert_eq!(u32_text(1000), "1000");
}

#[test]
fn numbers_are_read_as_the_standard_parser_reads_them() {
    for text in [
        "", "+", "-", "0", "+0", "-0", "00", "007", "+007", "1", "42", "4294967295", "4294967296", "04294967295",
        "+4294967295", "99999999999", "42949672950", "12a", "a12", "1 2", " 12", "12 ", "++1", "+-1", "1+", "٣", "１２",
        "1e3", "0x10", "1_000", "1.0",
    ] {
        assert_eq!(parse_u32(text), text.parse::<u32>().ok(), "{:?}", text);
    }
    assert_eq!(parse_u32("4294967295"), Some(u32::MAX));
    assert_eq!(parse_u32("+12"), Some(12));
    assert_eq!(parse_u32("4294967296"), None);
    assert_eq!(parse_u32(""), None);
}
