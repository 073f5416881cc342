//! The filing service: its settings and the rules that every call goes by.

pub mod charges;
pub mod company_data;
pub mod forms;
pub mod incorporation;
pub mod members_forms;
pub mod officer_change;
pub mod psc_forms;
pub mod queries;
pub mod submission;

use vstd::prelude::*;
use vstd::string::*;
use crate::error::{ErrorCode, ServiceError};
use crate::gov_talk::{error_messages, GovTalkErrors, GovTalkResponse, GovTalkSender, MESSAGE_SEPARATOR};
use crate::identifier::lemma_hyphenated_text_is_one_to_one;
use crate::models::Documents;
use crate::outside::{
    base64_decode, base64_decoding, base64_error_text, fresh_uuid, hyphenated_text, sample_alphanumeric,
    thread_rng, uuid_hyphenated,
};
use crate::proto::document::{ContentEncoding, ContentType, Document, GetDocument};
use crate::proto::govtalk::GovTalkBody;
use crate::store::{is_recent, lemma_recent_count_zero, recent_count, Store};
use crate::text::{byte_len, joined, len, remove_all, without};
use crate::time::{today, Date, Timestamp};

verus! {

/// How many characters a submission number has.
pub const SUBMISSION_NUMBER_LENGTH: usize = 6;

/// The filing service: who presents, under which package reference, and where documents are kept.
#[derive(Clone, Debug)]
pub struct CHFillingService {
    pub sender: GovTalkSender,
    pub documents_path: String,
    pub presenter_id: String,
    pub package_reference: String,
}

/// Whether `c` is a digit or a capital letter of ASCII.
pub open spec fn is_number_character(c: char) -> bool {
    ('0' <= c <= '9') || ('A' <= c <= 'Z')
}

/// Whether `s` has the form of a submission number: six characters, each a digit or a capital letter.
pub open spec fn is_submission_number(s: Seq<char>) -> bool {
    s.len() == SUBMISSION_NUMBER_LENGTH && forall|i: int| 0 <= i < s.len() ==> is_number_character(s[i])
}

/// Whether no submission in `rows` that was received within the thirty days
/// before `now` carries `number`.
pub open spec fn is_unused(rows: Seq<crate::models::Submission>, number: Seq<char>, now: Timestamp) -> bool {
    forall|i: int| 0 <= i < rows.len() ==> !is_recent(rows[i], number, now.spec_window_start())
}

/// What the caller has to do next to allocate a submission number.
#[derive(Debug)]
pub enum AllocatorAction {
    /// Count the submissions that carry `submission_number` and were received
    /// at or after `since`, and report the count.
    CountRecent { submission_number: String, since: Timestamp },
    /// Nothing: allocation ended with this result.
    Finish(Result<String, ServiceError>),
}

/// What `gen_submission_number` owes for the candidate `candidate`, the count
/// `count` reported for it and the time `now`.
///
/// A failed count ends allocation with an internal error. A count of zero ends
/// it with the candidate. Any other count asks for a new candidate to be
/// counted over the window that ends at `now`.
pub open spec fn is_allocator_step(
    candidate: String,
    count: Result<i64, String>,
    now: Timestamp,
    action: AllocatorAction,
) -> bool {
    match count {
        Err(reason) => {
            &&& action matches AllocatorAction::Finish(Err(e))
            &&& e.is(ErrorCode::Internal, "Unable to access DB: "@ + reason@)
        },
        Ok(n) => if n == 0 {
            action == AllocatorAction::Finish(Ok(candidate))
        } else {
            is_count_request(action, now)
        },
    }
}

/// Whether `action` asks for a candidate of the right form to be counted over
/// the window that ends at `now`.
pub open spec fn is_count_request(action: AllocatorAction, now: Timestamp) -> bool {
    &&& action matches AllocatorAction::CountRecent { submission_number, since }
    &&& is_submission_number(submission_number@)
    &&& since == now.spec_window_start()
}

impl CHFillingService {
    /// Accepts a company authentication code of six to eight bytes.
    pub fn check_authentication_code(code: &str) -> (r: Result<(), ServiceError>)
        ensures
            r is Ok <==> 6 <= byte_len(code@) <= 8,
            r matches Err(e) ==> e.is(
                ErrorCode::InvalidArgument,
                "Company authentication code of the wrong length"@,
            ),
    {
        let n = len(code);
        if n < 6 || n > 8 {
            return Err(ServiceError::invalid_argument("Company authentication code of the wrong length"));
        }
        Ok(())
    }

    /// Draws a candidate for a submission number.
    pub fn draw_submission_number() -> (r: String)
        ensures
            is_submission_number(r@),
    {
        let mut rng = thread_rng();
        let mut out = String::new();
        let mut i: usize = 0;
        while i < SUBMISSION_NUMBER_LENGTH
            invariant
                i <= SUBMISSION_NUMBER_LENGTH,
                out@.len() == i,
                forall|j: int| 0 <= j < i ==> is_number_character(out@[j]),
            decreases SUBMISSION_NUMBER_LENGTH - i,
        {
            let b = sample_alphanumeric(&mut rng);
            let upper: u8 = if 0x61 <= b && b <= 0x7a {
                b - 0x20
            } else {
                b
            };
            out.push(upper as char);
            i += 1;
        }
        out
    }

    /// Starts the allocation of a submission number: asks for a first candidate to be counted.
    pub fn begin_gen_submission_number(now: Timestamp) -> (r: AllocatorAction)
        ensures
            is_count_request(r, now),
    {
        AllocatorAction::CountRecent {
            submission_number: Self::draw_submission_number(),
            since: now.window_start(),
        }
    }

    /// One step of the allocation: takes the count reported for `candidate`
    /// and either ends with it or asks for another to be counted. There is no
    /// limit to the number of candidates.
    pub fn gen_submission_number(candidate: String, count: Result<i64, String>, now: Timestamp) -> (r:
        AllocatorAction)
        ensures
            is_allocator_step(candidate, count, now, r),
    {
        match count {
            Err(reason) => {
                let mut message = "Unable to access DB: ".to_owned();
                message.append(reason.as_str());
                AllocatorAction::Finish(Err(ServiceError::internal(message)))
            },
            Ok(n) => {
                if n == 0 {
                    AllocatorAction::Finish(Ok(candidate))
                } else {
                    Self::begin_gen_submission_number(now)
                }
            },
        }
    }
}

impl Store {
    /// Allocates a submission number against this store: draws candidates
    /// until one is carried by no submission received within the thirty days
    /// before `now`, at most `max_attempts` of them.
    pub fn gen_submission_number(&self, now: Timestamp, max_attempts: u32) -> (r: Option<String>)
        ensures
            r matches Some(number) ==> is_submission_number(number@) && is_unused(
                self.submissions@,
                number@,
                now,
            ),
            r is None ==> max_attempts == 0 || exists|i: int|
                0 <= i < self.submissions@.len() && self.submissions@[i].received_timestamp.spec_at_or_after(
                    now.spec_window_start(),
                ),
    {
        let mut attempts: u32 = 0;
        let mut action = CHFillingService::begin_gen_submission_number(now);
        while attempts < max_attempts
            invariant
                attempts <= max_attempts,
                is_count_request(action, now),
                attempts > 0 ==> exists|i: int|
                    0 <= i < self.submissions@.len()
                        && self.submissions@[i].received_timestamp.spec_at_or_after(now.spec_window_start()),
            decreases max_attempts - attempts,
        {
            attempts += 1;
            match action {
                AllocatorAction::CountRecent { submission_number, since } => {
                    let n = self.count_recent(submission_number.as_str(), since);
                    proof {
                        lemma_recent_count_zero(self.submissions@, submission_number@, since);
                    }
                    if n == 0 {
                        return Some(submission_number);
                    }
                    action = CHFillingService::begin_gen_submission_number(now);
                },
                AllocatorAction::Finish(_) => {
                    return None;
                },
            }
        }
        None
    }
}

/// A number that allocation ends with is carried by no submission received in
/// the thirty days before it was counted, provided that the count reported
/// for a candidate is the number of such submissions in `rows`.
pub proof fn law_allocated_number_is_unused(
    candidate: String,
    count: i64,
    now: Timestamp,
    action: AllocatorAction,
    rows: Seq<crate::models::Submission>,
)
    requires
        count == recent_count(rows, candidate@, now.spec_window_start()),
        is_allocator_step(candidate, Ok(count), now, action),
        action is Finish,
    ensures
        action matches AllocatorAction::Finish(Ok(number)) && is_unused(rows, number@, now),
{
    lemma_recent_count_zero(rows, candidate@, now.spec_window_start());
}

/// The transaction class of a document request.
pub const GET_DOCUMENT_CLASS: &'static str = "GetDocument";

/// Why a document could not be fetched.
#[derive(Debug)]
pub enum FetchError {
    /// The transaction that asks for the document failed.
    Transaction(GovTalkErrors),
    /// The registry answered with something other than a document.
    MismatchedResponse,
    /// The document's content is not Base64; the text says why.
    InvalidEncoding(String),
    /// The content could not be written to the content store; the text says why.
    Write(String),
    /// The document's row could not be added; the text says why.
    Store(String),
}

impl FetchError {
    /// The failure in words.
    pub open spec fn spec_message(&self) -> Seq<char> {
        match self {
            FetchError::Transaction(e) => "Unable to get document: "@ + joined(
                error_messages(e.errors@),
                MESSAGE_SEPARATOR@,
            ) + ", (trans ID: "@ + e.transaction_id@ + ")"@,
            FetchError::MismatchedResponse => "Mismatched response body received for document"@,
            FetchError::InvalidEncoding(reason) => "Invalid document encoding: "@ + reason@,
            FetchError::Write(reason) => "Unable to save document: "@ + reason@,
            FetchError::Store(reason) => "Unable to access DB: "@ + reason@,
        }
    }

    /// The failure in words.
    pub fn message(&self) -> (r: String)
        ensures
            r@ == self.spec_message(),
    {
        match self {
            FetchError::Transaction(e) => {
                let mut out = "Unable to get document: ".to_owned();
                out.append(e.description().as_str());
                out.append(", (trans ID: ");
                out.append(e.transaction_id.as_str());
                out.append(")");
                out
            },
            FetchError::MismatchedResponse => "Mismatched response body received for document".to_owned(),
            FetchError::InvalidEncoding(reason) => {
                let mut out = "Invalid document encoding: ".to_owned();
                out.append(reason.as_str());
                out
            },
            FetchError::Write(reason) => {
                let mut out = "Unable to save document: ".to_owned();
                out.append(reason.as_str());
                out
            },
            FetchError::Store(reason) => {
                let mut out = "Unable to access DB: ".to_owned();
                out.append(reason.as_str());
                out
            },
        }
    }
}

/// The file extension that goes with a content type.
pub open spec fn spec_extension(content_type: ContentType) -> Seq<char> {
    match content_type {
        ContentType::Pdf => "pdf"@,
    }
}

/// The name under which a document with the file identifier `filename_id` is
/// kept: the identifier in its hyphenated form, a dot and the extension.
pub open spec fn storage_filename(filename_id: u128, content_type: ContentType) -> Seq<char> {
    hyphenated_text(filename_id) + "."@ + spec_extension(content_type)
}

/// Whether `row` is the row for the document `body`, fetched on `today` and
/// given the identifier `document_id` and the file identifier `filename_id`.
pub open spec fn is_document_row(
    row: Documents,
    body: Document,
    filename_id: u128,
    document_id: u128,
    today: Date,
) -> bool {
    &&& row.id == document_id
    &&& row.company_number == body.company_number
    &&& row.document_date == (match body.document_date {
        Some(date) => date,
        None => today,
    })
    &&& row.document_type@ == (match body.document_type {
        Some(t) => t@,
        None => Seq::empty(),
    })
    &&& row.document_id == body.document_id
    &&& row.document_filename@ == (match body.document_data.filename {
        Some(name) => name@,
        None => Seq::empty(),
    })
    &&& row.storage_filename@ == storage_filename(filename_id, body.document_data.content_type)
}

/// Whether `r` is what a fetched document `body` is turned into: its row and
/// its content, decoded from Base64 after every line feed is taken out, or the
/// failure to decode it.
pub open spec fn is_prepared(
    r: Result<(Documents, Vec<u8>), FetchError>,
    body: Document,
    filename_id: u128,
    document_id: u128,
    today: Date,
) -> bool {
    match base64_decoding(without(body.document_data.contents@, '\n')) {
        Some(bytes) => {
            &&& r matches Ok((row, data))
            &&& data@ == bytes
            &&& is_document_row(row, body, filename_id, document_id, today)
        },
        None => r matches Err(FetchError::InvalidEncoding(_)),
    }
}

/// Fetching the same document twice makes two documents: where different
/// identifiers are drawn for the two rows and for the two files, the rows
/// differ in their identifiers and in the names of their files, and agree in
/// the registry's own identifier of the document and in the content.
pub proof fn law_two_fetches_make_two_documents(
    body: Document,
    first_file: u128,
    first_row: u128,
    second_file: u128,
    second_row: u128,
    today: Date,
    first: Result<(Documents, Vec<u8>), FetchError>,
    second: Result<(Documents, Vec<u8>), FetchError>,
)
    requires
        is_prepared(first, body, first_file, first_row, today),
        is_prepared(second, body, second_file, second_row, today),
        first is Ok,
        first_file != second_file,
        first_row != second_row,
    ensures
        second is Ok,
        first->Ok_0.0.id != second->Ok_0.0.id,
        first->Ok_0.0.storage_filename@ != second->Ok_0.0.storage_filename@,
        first->Ok_0.0.document_id == second->Ok_0.0.document_id,
        first->Ok_0.1@ == second->Ok_0.1@,
{
    let one = first->Ok_0.0.storage_filename@;
    let two = second->Ok_0.0.storage_filename@;
    if one == two {
        let tail = "."@ + spec_extension(body.document_data.content_type);
        assert(one == hyphenated_text(first_file) + tail);
        assert(two == hyphenated_text(second_file) + tail);
        assert(one.take(36) == hyphenated_text(first_file));
        assert(two.take(36) == hyphenated_text(second_file));
        lemma_hyphenated_text_is_one_to_one(first_file, second_file);
    }
}

/// What the caller has to do next to fetch a document.
#[derive(Debug)]
pub enum FetchAction {
    /// Run a transaction of this class with this body and report `Transaction`.
    Execute { class: String, body: GovTalkBody },
    /// Write `data` to the file `filename` under the documents path and report `Written`.
    Write { filename: String, data: Vec<u8> },
    /// Add the row to the documents table and report `Inserted`.
    Insert(Documents),
    /// Nothing: the fetch ended with this result.
    Finish(Result<u128, FetchError>),
}

/// What the fetcher is waiting for.
#[derive(Debug)]
pub enum FetchState {
    /// The document has been asked for.
    Requesting,
    /// The content is being written; the row comes next.
    Writing { row: Documents },
    /// The row is being added.
    Inserting { document_id: u128 },
    /// The fetch is over.
    Finished,
}

/// What the caller reports back after a fetch action.
#[derive(Debug)]
pub enum FetchEvent {
    /// How the transaction ended.
    Transaction(Result<GovTalkResponse, GovTalkErrors>),
    /// Whether the content was written, or why not.
    Written(Result<(), String>),
    /// Whether the row was added, or why not.
    Inserted(Result<(), String>),
}

/// Whether `state` and `action` start the fetch of the document behind `document_key`.
pub open spec fn is_fetch_opening(state: FetchState, action: FetchAction, document_key: Seq<char>) -> bool {
    &&& state == FetchState::Requesting
    &&& action matches FetchAction::Execute { class, body }
    &&& class@ == GET_DOCUMENT_CLASS@
    &&& body matches GovTalkBody::GetDocument(request)
    &&& request.document_request_key@ == document_key
}

/// Whether `next` and `action` are the fetcher's answer to `event` in `state`,
/// where `filename_id` and `document_id` are the identifiers drawn for the
/// file and the row, and `today` is the date of a document that names none.
///
/// The content is written before the row is added, and the first failure ends
/// the fetch. An event that the state does not wait for ends it as a
/// mismatched response.
pub open spec fn is_fetch_step(
    state: FetchState,
    event: FetchEvent,
    filename_id: u128,
    document_id: u128,
    today: Date,
    next: FetchState,
    action: FetchAction,
) -> bool {
    match (state, event) {
        (FetchState::Requesting, FetchEvent::Transaction(Err(e))) => {
            &&& next == FetchState::Finished
            &&& action == FetchAction::Finish(Err(FetchError::Transaction(e)))
        },
        (FetchState::Requesting, FetchEvent::Transaction(Ok(response))) => match response.body {
            Some(GovTalkBody::Document(body)) => match base64_decoding(
                without(body.document_data.contents@, '\n'),
            ) {
                Some(bytes) => {
                    &&& next matches FetchState::Writing { row }
                    &&& is_document_row(row, body, filename_id, document_id, today)
                    &&& action matches FetchAction::Write { filename, data }
                    &&& filename@ == storage_filename(filename_id, body.document_data.content_type)
                    &&& data@ == bytes
                },
                None => {
                    &&& next == FetchState::Finished
                    &&& action matches FetchAction::Finish(Err(FetchError::InvalidEncoding(_)))
                },
            },
            _ => {
                &&& next == FetchState::Finished
                &&& action == FetchAction::Finish(Err(FetchError::MismatchedResponse))
            },
        },
        (FetchState::Writing { row }, FetchEvent::Written(Ok(()))) => {
            &&& next == (FetchState::Inserting { document_id: row.id })
            &&& action == FetchAction::Insert(row)
        },
        (FetchState::Writing { row }, FetchEvent::Written(Err(reason))) => {
            &&& next == FetchState::Finished
            &&& action == FetchAction::Finish(Err(FetchError::Write(reason)))
        },
        (FetchState::Inserting { document_id }, FetchEvent::Inserted(Ok(()))) => {
            &&& next == FetchState::Finished
            &&& action == FetchAction::Finish(Ok(document_id))
        },
        (FetchState::Inserting { document_id }, FetchEvent::Inserted(Err(reason))) => {
            &&& next == FetchState::Finished
            &&& action == FetchAction::Finish(Err(FetchError::Store(reason)))
        },
        _ => {
            &&& next == FetchState::Finished
            &&& action == FetchAction::Finish(Err(FetchError::MismatchedResponse))
        },
    }
}

/// The file extension that goes with a content type.
pub fn extension(content_type: ContentType) -> (r: &'static str)
    ensures
        r@ == spec_extension(content_type),
{
    match content_type {
        ContentType::Pdf => "pdf",
    }
}

/// Turns a fetched document into its row and its content.
pub fn prepare_document(body: Document, filename_id: u128, document_id: u128, today: Date) -> (r: Result<
    (Documents, Vec<u8>),
    FetchError,
>)
    ensures
        is_prepared(r, body, filename_id, document_id, today),
{
    let mut filename = uuid_hyphenated(filename_id);
    filename.append(".");
    filename.append(extension(body.document_data.content_type));
    let data = match body.document_data.content_encoding {
        ContentEncoding::Base64 => {
            let text = remove_all(body.document_data.contents.as_str(), '\n');
            match base64_decode(text.as_str()) {
                Ok(data) => data,
                Err(e) => {
                    return Err(FetchError::InvalidEncoding(base64_error_text(&e)));
                },
            }
        },
    };
    let row = Documents {
        id: document_id,
        company_number: body.company_number,
        document_date: match body.document_date {
            Some(date) => date,
            None => today,
        },
        document_type: match body.document_type {
            Some(t) => t,
            None => String::new(),
        },
        document_id: body.document_id,
        document_filename: match body.document_data.filename {
            Some(name) => name,
            None => String::new(),
        },
        storage_filename: filename,
    };
    Ok((row, data))
}

impl CHFillingService {
    /// Starts the fetch of the document behind `document_key`: asks for it.
    pub fn begin_get_document(document_key: &str) -> (r: (FetchState, FetchAction))
        ensures
            is_fetch_opening(r.0, r.1, document_key@),
    {
        (
            FetchState::Requesting,
            FetchAction::Execute {
                class: GET_DOCUMENT_CLASS.to_owned(),
                body: GovTalkBody::GetDocument(GetDocument { document_request_key: document_key.to_owned() }),
            },
        )
    }

    /// One step of a fetch, with the identifiers and the date given by the caller.
    pub fn step_get_document(
        state: FetchState,
        event: FetchEvent,
        filename_id: u128,
        document_id: u128,
        today: Date,
    ) -> (r: (FetchState, FetchAction))
        ensures
            is_fetch_step(state, event, filename_id, document_id, today, r.0, r.1),
    {
        match (state, event) {
            (FetchState::Requesting, FetchEvent::Transaction(Err(e))) => (
                FetchState::Finished,
                FetchAction::Finish(Err(FetchError::Transaction(e))),
            ),
            (FetchState::Requesting, FetchEvent::Transaction(Ok(response))) => match response.body {
                Some(GovTalkBody::Document(body)) => {
                    match prepare_document(body, filename_id, document_id, today) {
                        Ok((row, data)) => (
                            FetchState::Writing { row: row.clone() },
                            FetchAction::Write { filename: row.storage_filename, data },
                        ),
                        Err(e) => (FetchState::Finished, FetchAction::Finish(Err(e))),
                    }
                },
                _ => (FetchState::Finished, FetchAction::Finish(Err(FetchError::MismatchedResponse))),
            },
            (FetchState::Writing { row }, FetchEvent::Written(Ok(()))) => (
                FetchState::Inserting { document_id: row.id },
                FetchAction::Insert(row),
            ),
            (FetchState::Writing { row }, FetchEvent::Written(Err(reason))) => (
                FetchState::Finished,
                FetchAction::Finish(Err(FetchError::Write(reason))),
            ),
            (FetchState::Inserting { document_id }, FetchEvent::Inserted(Ok(()))) => (
                FetchState::Finished,
                FetchAction::Finish(Ok(document_id)),
            ),
            (FetchState::Inserting { document_id }, FetchEvent::Inserted(Err(reason))) => (
                FetchState::Finished,
                FetchAction::Finish(Err(FetchError::Store(reason))),
            ),
            _ => (FetchState::Finished, FetchAction::Finish(Err(FetchError::MismatchedResponse))),
        }
    }

    /// One step of a fetch: takes what the caller reports and says what to do
    /// next. The file and the row get fresh identifiers, and a document that
    /// names no date gets today's.
    pub fn get_document(state: FetchState, event: FetchEvent) -> (r: (FetchState, FetchAction))
        ensures
            exists|filename_id: u128, document_id: u128, today: Date|
                is_fetch_step(state, event, filename_id, document_id, today, r.0, r.1),
    {
        let filename_id = fresh_uuid();
        let document_id = fresh_uuid();
        let date = today();
        Self::step_get_document(state, event, filename_id, document_id, date)
    }
}

} // verus!
