//! The lifecycle tracker: one poll cycle after another.
//!
//! A cycle sleeps, counts the pending submissions, asks the registry for the
//! statuses it has to report, reconciles each with the submission it belongs
//! to, and acknowledges the batch. The tracker here decides every step and
//! leaves the outside work (the sleep, the tables, the transactions, the
//! fetching of documents) to its caller, which performs each
//! [`WatcherAction`] and reports back with a [`WatcherEvent`].

use vstd::prelude::*;
use vstd::string::*;
use crate::gov_talk::{error_messages, GovTalkErrors, GovTalkResponse, MESSAGE_SEPARATOR};
use crate::grpc::{CHFillingService, FetchError};
use crate::models::{Submission, SubmissionRejection};
use crate::outside::fresh_uuid;
use crate::proto::govtalk::GovTalkBody;
use crate::proto::submission_status::{
    GetSubmissionStatus, Reject, Status as StatusReport, StatusCode, StatusDetails,
};
use crate::schema::Status;
use crate::store::{is_first_match, pending_count, updated, Store, StoreView};
use crate::text::joined;

verus! {

/// How long the tracker sleeps between two cycles, in seconds.
pub const POLL_INTERVAL_SECONDS: u64 = 30;

/// The number of the registry's error that says there is no status to report.
pub const NO_STATUS_AVAILABLE: i32 = 8026;

/// The transaction class of a status request.
pub const GET_SUBMISSION_STATUS_CLASS: &'static str = "GetSubmissionStatus";

/// The transaction class of an acknowledgement.
pub const STATUS_ACK_CLASS: &'static str = "StatusAck";

/// How much a log entry matters.
#[derive(Clone, Copy, Debug, PartialEq, Eq, Structural)]
pub enum LogLevel {
    Warning,
    Error,
}

/// One line for the log.
#[derive(Debug)]
pub struct LogEntry {
    pub level: LogLevel,
    pub message: String,
}

/// What the tracker is waiting for.
#[derive(Debug)]
pub enum WatcherState {
    /// The end of the sleep between two cycles.
    Sleeping,
    /// The number of pending submissions.
    Counting,
    /// The registry's answer to the status request.
    Polling,
    /// The submission that `status` is about; `rest` are the statuses still to come.
    Finding { status: StatusReport, rest: Vec<StatusReport> },
    /// The document that `details` refers to, for the reconciled `submission`.
    Fetching {
        submission: Submission,
        rejections: Vec<SubmissionRejection>,
        details: StatusDetails,
        rest: Vec<StatusReport>,
    },
    /// The writing back of a reconciled submission.
    Persisting { rest: Vec<StatusReport> },
    /// The registry's answer to the acknowledgement.
    Acknowledging,
}

/// What the caller reports back after an action.
#[derive(Debug)]
pub enum WatcherEvent {
    /// The sleep is over.
    Woke,
    /// How many submissions are pending, or why they could not be counted.
    PendingCount(Result<i64, String>),
    /// How the transaction ended.
    Transaction(Result<GovTalkResponse, GovTalkErrors>),
    /// The submission that carries the number asked for, if there is one, or
    /// why the table could not be read.
    Found(Result<Option<Submission>, String>),
    /// The identifier of the fetched document, or why it could not be fetched.
    Document(Result<u128, FetchError>),
    /// Whether the submission was written back, or why not.
    Persisted(Result<(), String>),
}

/// What the caller has to do next.
#[derive(Debug)]
pub enum WatcherAction {
    /// Sleep and report `Woke`.
    Sleep { seconds: u64 },
    /// Count the pending submissions and report `PendingCount`.
    CountPending,
    /// Run a transaction of this class with this body and report `Transaction`.
    Execute { class: String, body: GovTalkBody },
    /// Look the submission up by its number and report `Found`.
    Find { submission_number: String },
    /// Fetch the document behind the key and report `Document`.
    Fetch { document_key: String },
    /// Write the submission back and add the rejections, both or neither, and report `Persisted`.
    Persist { submission: Submission, rejections: Vec<SubmissionRejection> },
}

/// What one step of the tracker comes to.
#[derive(Debug)]
pub struct WatcherStep {
    pub state: WatcherState,
    pub action: WatcherAction,
    pub log: Option<LogEntry>,
}

/// The stored status that stands for a reported status code.
pub open spec fn spec_status_of(code: StatusCode) -> Status {
    match code {
        StatusCode::Pending => Status::Pending,
        StatusCode::Accepted => Status::Accepted,
        StatusCode::Rejected => Status::Rejected,
        StatusCode::Parked => Status::Parked,
        StatusCode::InternalFailure => Status::InternalFailure,
    }
}

/// The stored status that stands for a reported status code.
#[verifier::when_used_as_spec(spec_status_of)]
pub fn status_of(code: StatusCode) -> (r: Status)
    ensures
        r == spec_status_of(code),
{
    match code {
        StatusCode::Pending => Status::Pending,
        StatusCode::Accepted => Status::Accepted,
        StatusCode::Rejected => Status::Rejected,
        StatusCode::Parked => Status::Parked,
        StatusCode::InternalFailure => Status::InternalFailure,
    }
}

impl StatusReport {
    /// The submission `local` after this report is applied to it, before any
    /// document is fetched.
    ///
    /// The status and the customer reference are taken from the report. The
    /// company number is taken from it only where `local` has none. The reject
    /// reference is replaced where the report carries rejections, and the
    /// examiner's telephone and comment where it names an examiner.
    pub open spec fn reconciled(self, local: Submission) -> Submission {
        Submission {
            status: spec_status_of(self.status_code),
            customer_reference: self.customer_reference,
            company_number: if local.company_number is None {
                self.company_number
            } else {
                local.company_number
            },
            reject_reference: match self.rejections {
                Some(r) => r.reject_reference,
                None => local.reject_reference,
            },
            examiner_telephone: match self.examiner {
                Some(e) => Some(e.telephone),
                None => local.examiner_telephone,
            },
            examiner_comment: match self.examiner {
                Some(e) => e.comment,
                None => local.examiner_comment,
            },
            ..local
        }
    }

    /// The rejections that this report carries, in order; none where it has no rejections block.
    pub open spec fn reported_rejections(self) -> Seq<Reject> {
        match self.rejections {
            Some(r) => r.rejections@,
            None => Seq::empty(),
        }
    }
}

impl StatusDetails {
    /// The key of the document that these details refer to.
    pub open spec fn spec_document_request_key(self) -> String {
        match self {
            StatusDetails::Incorporation(i) => i.document_request_key,
            StatusDetails::ChangeOfName(c) => c.document_request_key,
            StatusDetails::Charge(c) => c.document_request_key,
        }
    }

    /// `submission` with the fetched document linked and the fields set that
    /// go with the kind of details: the incorporation date and authentication
    /// code, or the charge code, or nothing more.
    pub open spec fn applied(self, submission: Submission, document_id: u128) -> Submission {
        match self {
            StatusDetails::Incorporation(i) => Submission {
                document_id: Some(document_id),
                incorporation_date: Some(i.incorporation_date),
                authentication_code: Some(i.authentication_code),
                ..submission
            },
            StatusDetails::ChangeOfName(_) => Submission { document_id: Some(document_id), ..submission },
            StatusDetails::Charge(c) => Submission {
                document_id: Some(document_id),
                charge_code: Some(c.charge_code),
                ..submission
            },
        }
    }

    /// The key of the document that these details refer to.
    pub fn document_request_key(&self) -> (r: String)
        ensures
            r == self.spec_document_request_key(),
    {
        match self {
            StatusDetails::Incorporation(i) => i.document_request_key.clone(),
            StatusDetails::ChangeOfName(c) => c.document_request_key.clone(),
            StatusDetails::Charge(c) => c.document_request_key.clone(),
        }
    }

    /// Links the fetched document to `submission` and sets the fields that go
    /// with the kind of details.
    pub fn apply(self, submission: Submission, document_id: u128) -> (r: Submission)
        ensures
            r == self.applied(submission, document_id),
    {
        let mut submission = submission;
        submission.document_id = Some(document_id);
        match self {
            StatusDetails::Incorporation(i) => {
                submission.incorporation_date = Some(i.incorporation_date);
                submission.authentication_code = Some(i.authentication_code);
            },
            StatusDetails::ChangeOfName(_) => {},
            StatusDetails::Charge(c) => {
                submission.charge_code = Some(c.charge_code);
            },
        }
        submission
    }
}

/// Whether `rows` are the rows for the rejections `reported` of the
/// submission `submission_id`: one row for each, in order, with the code, the
/// description and the instance number as reported. The rows' own identifiers
/// are fresh and not stated.
pub open spec fn are_rejection_rows(
    rows: Seq<SubmissionRejection>,
    submission_id: u128,
    reported: Seq<Reject>,
) -> bool {
    &&& rows.len() == reported.len()
    &&& forall|i: int|
        0 <= i < rows.len() ==> {
            &&& (#[trigger] rows[i]).submission_id == submission_id
            &&& rows[i].code == reported[i].reject_code
            &&& rows[i].description == reported[i].description
            &&& rows[i].instance_number == reported[i].instance_number
        }
}

/// Whether `rows` are the rows for the rejections `reported` of the
/// submission `submission_id`, with the identifiers `ids`: the row of the
/// `i`-th rejection carries the `i`-th identifier.
pub open spec fn are_rejection_rows_with(
    rows: Seq<SubmissionRejection>,
    submission_id: u128,
    reported: Seq<Reject>,
    ids: Seq<u128>,
) -> bool {
    &&& are_rejection_rows(rows, submission_id, reported)
    &&& ids.len() == rows.len()
    &&& forall|i: int| 0 <= i < rows.len() ==> (#[trigger] rows[i]).id == ids[i]
}

/// Applies a reported status to the submission it is about, with the
/// identifiers `ids` for the new rows, one for each reported rejection: the
/// reconciled submission, the rows for the reported rejections, and the
/// details that refer to a document, if the report has any.
pub fn reconcile_with(status: StatusReport, local: Submission, ids: Vec<u128>) -> (r: (
    Submission,
    Vec<SubmissionRejection>,
    Option<StatusDetails>,
))
    requires
        ids@.len() == status.reported_rejections().len(),
    ensures
        r.0 == status.reconciled(local),
        are_rejection_rows_with(r.1@, local.id, status.reported_rejections(), ids@),
        r.2 == status.details,
{
    let mut submission = local;
    let mut new_rejections: Vec<SubmissionRejection> = Vec::new();
    submission.status = status_of(status.status_code);
    submission.customer_reference = status.customer_reference;
    if submission.company_number.is_none() {
        submission.company_number = status.company_number;
    }
    match status.rejections {
        Some(rejections) => {
            submission.reject_reference = rejections.reject_reference;
            let mut reported = rejections.rejections;
            let ghost all = reported@;
            let mut done: usize = 0;
            let total = reported.len();
            while reported.len() > 0
                invariant
                    done + reported.len() == total,
                    total == all.len(),
                    total == ids@.len(),
                    reported@ == all.subrange(done as int, total as int),
                    new_rejections@.len() == done,
                    forall|i: int|
                        0 <= i < done ==> {
                            &&& (#[trigger] new_rejections@[i]).id == ids@[i]
                            &&& new_rejections@[i].submission_id == submission.id
                            &&& new_rejections@[i].code == all[i].reject_code
                            &&& new_rejections@[i].description == all[i].description
                            &&& new_rejections@[i].instance_number == all[i].instance_number
                        },
                decreases reported.len(),
            {
                let rejection = reported.remove(0);
                new_rejections.push(
                    SubmissionRejection {
                        id: ids[done],
                        submission_id: submission.id,
                        code: rejection.reject_code,
                        description: rejection.description,
                        instance_number: rejection.instance_number,
                    },
                );
                done += 1;
            }
        },
        None => {},
    }
    match status.examiner {
        Some(examiner) => {
            submission.examiner_telephone = Some(examiner.telephone);
            submission.examiner_comment = examiner.comment;
        },
        None => {},
    }
    (submission, new_rejections, status.details)
}

/// Draws `count` fresh identifiers.
pub fn fresh_identifiers(count: usize) -> (r: Vec<u128>)
    ensures
        r@.len() == count,
{
    let mut ids: Vec<u128> = Vec::new();
    while ids.len() < count
        invariant
            ids@.len() <= count,
        decreases count - ids@.len(),
    {
        ids.push(fresh_uuid());
    }
    ids
}

/// Applies a reported status to the submission it is about, with a fresh
/// identifier for each new row: what `reconcile_with` gives for the
/// identifiers drawn.
pub fn reconcile(status: StatusReport, local: Submission) -> (r: (
    Submission,
    Vec<SubmissionRejection>,
    Option<StatusDetails>,
))
    ensures
        r.0 == status.reconciled(local),
        are_rejection_rows(r.1@, local.id, status.reported_rejections()),
        r.2 == status.details,
{
    let count = match &status.rejections {
        Some(rejections) => rejections.rejections.len(),
        None => 0,
    };
    reconcile_with(status, local, fresh_identifiers(count))
}

/// The line logged when the tables cannot be read or written.
pub open spec fn store_failure_message(reason: Seq<char>) -> Seq<char> {
    "Unable to access DB: "@ + reason
}

/// The line logged when a transaction fails: what was being done, the errors'
/// messages joined with `"; "`, and the transaction's identifier.
pub open spec fn transaction_failure_message(doing: Seq<char>, e: GovTalkErrors) -> Seq<char> {
    doing + joined(error_messages(e.errors@), MESSAGE_SEPARATOR@) + ", (trans ID: "@ + e.transaction_id@
        + ")"@
}

/// The line logged for a status about a submission that is not in the tables.
pub open spec fn unknown_submission_message(number: Seq<char>) -> Seq<char> {
    "Unknown submission ID "@ + number
}

/// The line logged when a document cannot be fetched.
pub open spec fn fetch_failure_message(e: FetchError) -> Seq<char> {
    "Unable to get document: "@ + e.spec_message()
}

/// Whether `log` is an entry of this level with this message.
pub open spec fn logs(log: Option<LogEntry>, level: LogLevel, message: Seq<char>) -> bool {
    &&& log matches Some(entry)
    &&& entry.level == level
    &&& entry.message@ == message
}

/// Whether the step ends the cycle: the tracker goes to sleep for the poll interval.
pub open spec fn ends_cycle(state: WatcherState, action: WatcherAction) -> bool {
    &&& state == WatcherState::Sleeping
    &&& action == (WatcherAction::Sleep { seconds: POLL_INTERVAL_SECONDS })
}

/// Whether the step acknowledges the batch to the registry.
pub open spec fn acknowledges(state: WatcherState, action: WatcherAction) -> bool {
    &&& state == WatcherState::Acknowledging
    &&& action matches WatcherAction::Execute { class, body }
    &&& class@ == STATUS_ACK_CLASS@
    &&& body == (GovTalkBody::GetStatusAck {  })
}

/// Whether the step asks the registry for the statuses of the presenter `presenter_id`.
pub open spec fn polls(state: WatcherState, action: WatcherAction, presenter_id: String) -> bool {
    &&& state == WatcherState::Polling
    &&& action matches WatcherAction::Execute { class, body }
    &&& class@ == GET_SUBMISSION_STATUS_CLASS@
    &&& body matches GovTalkBody::GetSubmissionStatus(request)
    &&& request.reference is None
    &&& request.presenter_id == presenter_id
}

/// Whether the step goes on to the statuses `statuses`: it looks up the
/// submission of the first and keeps the others for later, or acknowledges
/// the batch where none is left.
pub open spec fn goes_on_with(state: WatcherState, action: WatcherAction, statuses: Seq<StatusReport>) -> bool {
    if statuses.len() == 0 {
        acknowledges(state, action)
    } else {
        &&& state matches WatcherState::Finding { status, rest }
        &&& status == statuses[0]
        &&& rest@ == statuses.drop_first()
        &&& action matches WatcherAction::Find { submission_number }
        &&& submission_number == statuses[0].submission_number
    }
}

/// Whether the step writes `submission` back together with rows for the
/// rejections `reported`, and keeps `rest` for later.
pub open spec fn persists(
    state: WatcherState,
    action: WatcherAction,
    submission: Submission,
    reported: Seq<Reject>,
    rest: Vec<StatusReport>,
) -> bool {
    &&& state == (WatcherState::Persisting { rest })
    &&& action matches WatcherAction::Persist { submission: written, rejections }
    &&& written == submission
    &&& are_rejection_rows(rejections@, submission.id, reported)
}

/// Whether `step` is the tracker's answer to `event` in `state`, for the
/// presenter `presenter_id`.
///
/// A cycle that cannot count the pending submissions, finds none, gets no
/// statuses or gets something else than statuses ends there, without an
/// acknowledgement. Once statuses are in hand they are reconciled in order.
/// A status about an unknown submission is logged and passed over. A table
/// that cannot be read or written, or a document that cannot be fetched,
/// ends the reconciling: the statuses left are not applied in this cycle.
/// Either way the batch is then acknowledged, and the cycle ends when the
/// acknowledgement is answered. An event that the state does not wait for
/// ends the cycle.
pub open spec fn is_watcher_step(
    presenter_id: String,
    state: WatcherState,
    event: WatcherEvent,
    step: WatcherStep,
) -> bool {
    let next = step.state;
    let action = step.action;
    let log = step.log;
    match (state, event) {
        (WatcherState::Sleeping, WatcherEvent::Woke) => {
            &&& next == WatcherState::Counting
            &&& action == WatcherAction::CountPending
            &&& log is None
        },
        (WatcherState::Counting, WatcherEvent::PendingCount(Err(reason))) => {
            &&& ends_cycle(next, action)
            &&& logs(log, LogLevel::Error, store_failure_message(reason@))
        },
        (WatcherState::Counting, WatcherEvent::PendingCount(Ok(n))) => if n > 0 {
            polls(next, action, presenter_id) && log is None
        } else {
            ends_cycle(next, action) && log is None
        },
        (WatcherState::Polling, WatcherEvent::Transaction(Err(e))) => {
            &&& ends_cycle(next, action)
            &&& if forall|i: int| 0 <= i < e.errors@.len() ==> e.errors@[i].code == NO_STATUS_AVAILABLE {
                log is None
            } else {
                logs(
                    log,
                    LogLevel::Error,
                    transaction_failure_message("Unable to query submission status: "@, e),
                )
            }
        },
        (WatcherState::Polling, WatcherEvent::Transaction(Ok(response))) => match response.body {
            Some(GovTalkBody::SubmissionStatus(batch)) => {
                &&& goes_on_with(next, action, batch.status@)
                &&& log is None
            },
            _ => {
                &&& ends_cycle(next, action)
                &&& logs(log, LogLevel::Error, "Mismatched response body received for submission status"@)
            },
        },
        (WatcherState::Finding { status, rest }, WatcherEvent::Found(Err(reason))) => {
            &&& acknowledges(next, action)
            &&& logs(log, LogLevel::Error, store_failure_message(reason@))
        },
        (WatcherState::Finding { status, rest }, WatcherEvent::Found(Ok(None))) => {
            &&& goes_on_with(next, action, rest@)
            &&& logs(log, LogLevel::Warning, unknown_submission_message(status.submission_number@))
        },
        (WatcherState::Finding { status, rest }, WatcherEvent::Found(Ok(Some(local)))) => {
            &&& log is None
            &&& match status.details {
                Some(details) => {
                    &&& next matches WatcherState::Fetching {
                        submission,
                        rejections,
                        details: kept,
                        rest: left,
                    }
                    &&& submission == status.reconciled(local)
                    &&& are_rejection_rows(rejections@, local.id, status.reported_rejections())
                    &&& kept == details
                    &&& left == rest
                    &&& action matches WatcherAction::Fetch { document_key }
                    &&& document_key == details.spec_document_request_key()
                },
                None => persists(next, action, status.reconciled(local), status.reported_rejections(), rest),
            }
        },
        (
            WatcherState::Fetching { submission, rejections, details, rest },
            WatcherEvent::Document(Err(e)),
        ) => {
            &&& acknowledges(next, action)
            &&& logs(log, LogLevel::Error, fetch_failure_message(e))
        },
        (
            WatcherState::Fetching { submission, rejections, details, rest },
            WatcherEvent::Document(Ok(document_id)),
        ) => {
            &&& next == (WatcherState::Persisting { rest })
            &&& action == (WatcherAction::Persist {
                submission: details.applied(submission, document_id),
                rejections,
            })
            &&& log is None
        },
        (WatcherState::Persisting { rest }, WatcherEvent::Persisted(Err(reason))) => {
            &&& acknowledges(next, action)
            &&& logs(log, LogLevel::Error, store_failure_message(reason@))
        },
        (WatcherState::Persisting { rest }, WatcherEvent::Persisted(Ok(()))) => {
            &&& goes_on_with(next, action, rest@)
            &&& log is None
        },
        (WatcherState::Acknowledging, WatcherEvent::Transaction(Ok(_))) => {
            &&& ends_cycle(next, action)
            &&& log is None
        },
        (WatcherState::Acknowledging, WatcherEvent::Transaction(Err(e))) => {
            &&& ends_cycle(next, action)
            &&& logs(
                log,
                LogLevel::Error,
                transaction_failure_message("Unable to ack submission status: "@, e),
            )
        },
        _ => {
            &&& ends_cycle(next, action)
            &&& logs(log, LogLevel::Error, "Unexpected event"@)
        },
    }
}

/// The line logged when the tables cannot be read or written.
fn store_failure(reason: &str) -> (r: Option<LogEntry>)
    ensures
        logs(r, LogLevel::Error, store_failure_message(reason@)),
{
    let mut message = "Unable to access DB: ".to_owned();
    message.append(reason);
    Some(LogEntry { level: LogLevel::Error, message })
}

/// The line logged when a transaction fails.
fn transaction_failure(doing: &str, e: &GovTalkErrors) -> (r: Option<LogEntry>)
    ensures
        logs(r, LogLevel::Error, transaction_failure_message(doing@, *e)),
{
    let mut message = doing.to_owned();
    message.append(e.description().as_str());
    message.append(", (trans ID: ");
    message.append(e.transaction_id.as_str());
    message.append(")");
    Some(LogEntry { level: LogLevel::Error, message })
}

/// An error line with a fixed text.
fn error_line(text: &str) -> (r: Option<LogEntry>)
    ensures
        logs(r, LogLevel::Error, text@),
{
    Some(LogEntry { level: LogLevel::Error, message: text.to_owned() })
}

/// The step that ends the cycle.
fn sleep(log: Option<LogEntry>) -> (r: WatcherStep)
    ensures
        ends_cycle(r.state, r.action),
        r.log == log,
{
    WatcherStep {
        state: WatcherState::Sleeping,
        action: WatcherAction::Sleep { seconds: POLL_INTERVAL_SECONDS },
        log,
    }
}

/// The step that acknowledges the batch.
fn acknowledge(log: Option<LogEntry>) -> (r: WatcherStep)
    ensures
        acknowledges(r.state, r.action),
        r.log == log,
{
    WatcherStep {
        state: WatcherState::Acknowledging,
        action: WatcherAction::Execute {
            class: STATUS_ACK_CLASS.to_owned(),
            body: GovTalkBody::GetStatusAck {  },
        },
        log,
    }
}

/// The step that goes on to the statuses left.
fn go_on(statuses: Vec<StatusReport>, log: Option<LogEntry>) -> (r: WatcherStep)
    ensures
        goes_on_with(r.state, r.action, statuses@),
        r.log == log,
{
    let mut rest = statuses;
    if rest.len() == 0 {
        return acknowledge(log);
    }
    let status = rest.remove(0);
    let submission_number = status.submission_number.clone();
    WatcherStep {
        state: WatcherState::Finding { status, rest },
        action: WatcherAction::Find { submission_number },
        log,
    }
}

impl CHFillingService {
    /// One step of the lifecycle tracker: takes what the caller reports and
    /// says what to do next and what to log.
    pub fn watcher(&self, state: WatcherState, event: WatcherEvent) -> (r: WatcherStep)
        ensures
            is_watcher_step(self.presenter_id, state, event, r),
    {
        match (state, event) {
            (WatcherState::Sleeping, WatcherEvent::Woke) => WatcherStep {
                state: WatcherState::Counting,
                action: WatcherAction::CountPending,
                log: None,
            },
            (WatcherState::Counting, WatcherEvent::PendingCount(Err(reason))) => sleep(
                store_failure(reason.as_str()),
            ),
            (WatcherState::Counting, WatcherEvent::PendingCount(Ok(n))) => {
                if n > 0 {
                    WatcherStep {
                        state: WatcherState::Polling,
                        action: WatcherAction::Execute {
                            class: GET_SUBMISSION_STATUS_CLASS.to_owned(),
                            body: GovTalkBody::GetSubmissionStatus(
                                GetSubmissionStatus { reference: None, presenter_id: self.presenter_id.clone() },
                            ),
                        },
                        log: None,
                    }
                } else {
                    sleep(None)
                }
            },
            (WatcherState::Polling, WatcherEvent::Transaction(Err(e))) => {
                if e.all_have_code(NO_STATUS_AVAILABLE) {
                    sleep(None)
                } else {
                    sleep(transaction_failure("Unable to query submission status: ", &e))
                }
            },
            (WatcherState::Polling, WatcherEvent::Transaction(Ok(response))) => match response.body {
                Some(GovTalkBody::SubmissionStatus(batch)) => go_on(batch.status, None),
                _ => sleep(error_line("Mismatched response body received for submission status")),
            },
            (WatcherState::Finding { status, rest }, WatcherEvent::Found(Err(reason))) => acknowledge(
                store_failure(reason.as_str()),
            ),
            (WatcherState::Finding { status, rest }, WatcherEvent::Found(Ok(None))) => {
                let mut message = "Unknown submission ID ".to_owned();
                message.append(status.submission_number.as_str());
                go_on(rest, Some(LogEntry { level: LogLevel::Warning, message }))
            },
            (WatcherState::Finding { status, rest }, WatcherEvent::Found(Ok(Some(local)))) => {
                let (submission, rejections, details) = reconcile(status, local);
                match details {
                    Some(details) => {
                        let document_key = details.document_request_key();
                        WatcherStep {
                            state: WatcherState::Fetching { submission, rejections, details, rest },
                            action: WatcherAction::Fetch { document_key },
                            log: None,
                        }
                    },
                    None => WatcherStep {
                        state: WatcherState::Persisting { rest },
                        action: WatcherAction::Persist { submission, rejections },
                        log: None,
                    },
                }
            },
            (
                WatcherState::Fetching { submission, rejections, details, rest },
                WatcherEvent::Document(Err(e)),
            ) => {
                let mut message = "Unable to get document: ".to_owned();
                message.append(e.message().as_str());
                acknowledge(Some(LogEntry { level: LogLevel::Error, message }))
            },
            (
                WatcherState::Fetching { submission, rejections, details, rest },
                WatcherEvent::Document(Ok(document_id)),
            ) => WatcherStep {
                state: WatcherState::Persisting { rest },
                action: WatcherAction::Persist {
                    submission: details.apply(submission, document_id),
                    rejections,
                },
                log: None,
            },
            (WatcherState::Persisting { rest }, WatcherEvent::Persisted(Err(reason))) => acknowledge(
                store_failure(reason.as_str()),
            ),
            (WatcherState::Persisting { rest }, WatcherEvent::Persisted(Ok(()))) => go_on(rest, None),
            (WatcherState::Acknowledging, WatcherEvent::Transaction(Ok(_))) => sleep(None),
            (WatcherState::Acknowledging, WatcherEvent::Transaction(Err(e))) => sleep(
                transaction_failure("Unable to ack submission status: ", &e),
            ),
            _ => sleep(error_line("Unexpected event")),
        }
    }
}

/// The tables `store` after `action` is performed on them. Only `Persist`
/// changes anything: it replaces the submission's row and adds the rejections.
pub open spec fn effect(store: StoreView, action: WatcherAction) -> StoreView {
    match action {
        WatcherAction::Persist { submission, rejections } => StoreView {
            submissions: updated(store.submissions, submission),
            submission_rejections: store.submission_rejections + rejections@,
            documents: store.documents,
        },
        _ => store,
    }
}

/// The count that the store reports for `n` rows.
pub open spec fn reported_count(n: nat) -> i64 {
    if n > i64::MAX {
        i64::MAX
    } else {
        n as i64
    }
}

/// Whether `event` is what the tables `store` answer to `action`; nothing
/// where the action is not a question to the tables.
pub open spec fn is_answer(store: StoreView, action: WatcherAction, event: Option<WatcherEvent>) -> bool {
    match action {
        WatcherAction::CountPending => event == Some(
            WatcherEvent::PendingCount(Ok(reported_count(pending_count(store.submissions)))),
        ),
        WatcherAction::Find { submission_number } => {
            &&& event matches Some(WatcherEvent::Found(Ok(found)))
            &&& is_first_match(store.submissions, submission_number@, found)
        },
        WatcherAction::Persist { .. } => event == Some(WatcherEvent::Persisted(Ok(()))),
        _ => event is None,
    }
}

impl Store {
    /// Performs `action` on the tables and says what to report back to the
    /// tracker; nothing where the action is not the tables' to perform.
    pub fn answer(&mut self, action: WatcherAction) -> (r: Option<WatcherEvent>)
        ensures
            final(self)@ == effect(old(self)@, action),
            is_answer(old(self)@, action, r),
    {
        match action {
            WatcherAction::CountPending => {
                let n = self.count_pending();
                let count: i64 = if n as u64 > i64::MAX as u64 {
                    i64::MAX
                } else {
                    n as i64
                };
                Some(WatcherEvent::PendingCount(Ok(count)))
            },
            WatcherAction::Find { submission_number } => Some(
                WatcherEvent::Found(Ok(self.find(submission_number.as_str()))),
            ),
            WatcherAction::Persist { submission, rejections } => {
                self.persist(submission, rejections);
                Some(WatcherEvent::Persisted(Ok(())))
            },
            _ => None,
        }
    }
}

/// A status about a submission that is not in the tables changes nothing in
/// them: the step it leads to logs a warning, leaves every table as it was,
/// and goes on with the statuses left instead of ending the reconciling.
pub proof fn law_unknown_submission_changes_nothing(
    presenter_id: String,
    status: StatusReport,
    rest: Vec<StatusReport>,
    step: WatcherStep,
    store: StoreView,
)
    requires
        is_watcher_step(
            presenter_id,
            WatcherState::Finding { status, rest },
            WatcherEvent::Found(Ok(None)),
            step,
        ),
    ensures
        effect(store, step.action) == store,
        logs(step.log, LogLevel::Warning, unknown_submission_message(status.submission_number@)),
        goes_on_with(step.state, step.action, rest@),
{
}

/// A status that carries rejections and refers to no document is written back
/// in one action, which holds the submission with the reported reject
/// reference and one new row for each reported rejection; performed on the
/// tables, it adds exactly that many rejection rows and no other.
pub proof fn law_rejections_are_written_with_the_submission(
    presenter_id: String,
    status: StatusReport,
    rest: Vec<StatusReport>,
    local: Submission,
    step: WatcherStep,
    store: StoreView,
)
    requires
        status.rejections is Some,
        status.details is None,
        is_watcher_step(
            presenter_id,
            WatcherState::Finding { status, rest },
            WatcherEvent::Found(Ok(Some(local))),
            step,
        ),
    ensures
        step.action matches WatcherAction::Persist { submission, rejections } && {
            &&& submission.id == local.id
            &&& submission.reject_reference == status.rejections->0.reject_reference
            &&& rejections@.len() == status.rejections->0.rejections@.len()
            &&& effect(store, step.action).submission_rejections == store.submission_rejections
                + rejections@
            &&& effect(store, step.action).submission_rejections.len()
                == store.submission_rejections.len() + status.rejections->0.rejections@.len()
            &&& effect(store, step.action).submissions == updated(store.submissions, submission)
            &&& effect(store, step.action).documents == store.documents
        },
{
}

/// A status that refers to a document is written back once the document is
/// fetched: in one action still, which holds the submission with what the
/// document adds to it and the rejection rows that were kept meanwhile;
/// performed on the tables, it adds exactly those rows.
pub proof fn law_rejections_wait_for_the_document(
    presenter_id: String,
    submission: Submission,
    rejections: Vec<SubmissionRejection>,
    details: StatusDetails,
    rest: Vec<StatusReport>,
    document_id: u128,
    step: WatcherStep,
    store: StoreView,
)
    requires
        is_watcher_step(
            presenter_id,
            WatcherState::Fetching { submission, rejections, details, rest },
            WatcherEvent::Document(Ok(document_id)),
            step,
        ),
    ensures
        step.action == (WatcherAction::Persist {
            submission: details.applied(submission, document_id),
            rejections,
        }),
        effect(store, step.action).submission_rejections == store.submission_rejections + rejections@,
        effect(store, step.action).submissions == updated(
            store.submissions,
            details.applied(submission, document_id),
        ),
        effect(store, step.action).documents == store.documents,
{
}

/// The company number is written once: a report fills it in where the
/// submission has none, and no later report changes it.
pub proof fn law_company_number_first_write_wins(first: StatusReport, second: StatusReport, local: Submission)
    ensures
        local.company_number is Some ==> first.reconciled(local).company_number == local.company_number,
        local.company_number is None ==> first.reconciled(local).company_number == first.company_number,
        first.reconciled(local).company_number is Some ==> second.reconciled(
            first.reconciled(local),
        ).company_number == first.reconciled(local).company_number,
{
}

/// Applying the same report twice gives what applying it once gives.
pub proof fn law_reconciling_is_idempotent(report: StatusReport, local: Submission)
    ensures
        report.reconciled(report.reconciled(local)) == report.reconciled(local),
{
}

} // verus!
