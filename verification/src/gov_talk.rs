//! The transaction executor: who sends, what is sent, and what the answer means.
//!
//! A transaction is one request envelope posted to the gateway and one
//! response envelope read back. The executor here makes every decision of that
//! exchange and leaves the three pieces of outside work (writing the envelope
//! as XML, the HTTP POST, reading the answer's XML) to its caller, which
//! performs each [`TransactionAction`] and reports back with a
//! [`TransactionEvent`].

use vstd::prelude::*;
use vstd::string::*;
use crate::outside::{current_time, fresh_uuid, lower_hex_text, md5_digest, md5_hex, simple_upper_text, uuid_simple_upper};
use crate::proto::govtalk::{
    GovTalkAuthentication, GovTalkAuthenticationMethod, GovTalkBody, GovTalkDetails, GovTalkHeader,
    GovTalkIDAuthentication, GovTalkMessage, GovTalkMessageDetails, GovTalkQualifier, GovTalkRoot,
    GovTalkSenderDetails,
};
use crate::text::{join, joined, views};
use crate::time::Timestamp;

verus! {

/// The one address that every transaction is posted to.
pub const GATEWAY: &'static str = "https://xmlgw.companieshouse.gov.uk/v1-0/xmlgw/Gateway";

/// The content type that every transaction is posted with.
pub const CONTENT_TYPE: &'static str = "text/xml";

/// The envelope version that every request carries.
pub const ENVELOPE_VERSION: &'static str = "1.0";

/// Who raised an error that was found while writing the request.
pub const RAISED_BY_ENCODER: &'static str = "encoder";

/// Who raised an error that was found while posting the request or reading the answer.
pub const RAISED_BY_TRANSPORT: &'static str = "transport";

/// Who raised an error that was found while reading the response envelope.
pub const RAISED_BY_DECODER: &'static str = "decoder";

/// What stands between the texts of one reported error, and between the messages of several.
pub const MESSAGE_SEPARATOR: &'static str = "; ";

/// The presenter's credentials. The identifier and the authentication code are
/// kept as the MD5 digests that the gateway expects, never in the clear.
#[derive(Clone, Debug)]
pub struct GovTalkSender {
    email: String,
    presenter_id: String,
    presenter_code: String,
    is_test: bool,
}

impl GovTalkSender {
    /// The presenter's email address.
    pub closed spec fn email(&self) -> String {
        self.email
    }

    /// The digest of the presenter identifier, in hexadecimal.
    pub closed spec fn presenter_id(&self) -> String {
        self.presenter_id
    }

    /// The digest of the presenter's authentication code, in hexadecimal.
    pub closed spec fn presenter_code(&self) -> String {
        self.presenter_code
    }

    /// Whether requests are marked as tests.
    pub closed spec fn is_test(&self) -> bool {
        self.is_test
    }

    /// Takes the credentials as configured and keeps the two secrets as digests.
    pub fn new(email: &str, presenter_id: &str, presenter_code: &str, is_test: bool) -> (r: Self)
        ensures
            r.email()@ == email@,
            r.presenter_id()@ == lower_hex_text(md5_digest(presenter_id.spec_bytes())),
            r.presenter_code()@ == lower_hex_text(md5_digest(presenter_code.spec_bytes())),
            r.is_test() == is_test,
    {
        Self {
            email: email.to_owned(),
            presenter_id: md5_hex(presenter_id.as_bytes()),
            presenter_code: md5_hex(presenter_code.as_bytes()),
            is_test,
        }
    }
}

impl GovTalkSenderDetails {
    /// Whether `self` is the sender block of `sender`: the email address, the
    /// digest of the identifier, and one authentication by the `clear` method
    /// whose value is the digest of the code.
    pub open spec fn describes(&self, sender: &GovTalkSender) -> bool {
        &&& self.email_address == Some(sender.email())
        &&& self.id_authentication matches Some(id)
        &&& id.sender_id == Some(sender.presenter_id())
        &&& id.authentication@.len() == 1
        &&& id.authentication@[0].method == GovTalkAuthenticationMethod::Clear
        &&& id.authentication@[0].value == sender.presenter_code()
        &&& id.authentication@[0].role is None
    }

    /// The sender block of an envelope sent by `from`.
    pub fn from(from: &GovTalkSender) -> (r: Self)
        ensures
            r.describes(from),
    {
        GovTalkSenderDetails {
            email_address: Some(from.email.clone()),
            id_authentication: Some(
                GovTalkIDAuthentication {
                    sender_id: Some(from.presenter_id.clone()),
                    authentication: vec![
                        GovTalkAuthentication {
                            method: GovTalkAuthenticationMethod::Clear,
                            value: from.presenter_code.clone(),
                            role: None,
                        },
                    ],
                },
            ),
        }
    }
}

/// A failed transaction: the identifier it ran under and what went wrong.
#[derive(Clone, Debug)]
pub struct GovTalkErrors {
    pub transaction_id: String,
    pub errors: Vec<GovTalkError>,
}

/// One error: who raised it, its number and its text.
#[derive(Clone, Debug)]
pub struct GovTalkError {
    pub raised_by: String,
    pub code: i32,
    pub msg: String,
}

/// A transaction that the gateway answered without declaring an error.
#[derive(Clone, Debug)]
pub struct GovTalkResponse {
    pub transaction_id: String,
    pub gateway_timestamp: Timestamp,
    pub warnings: Vec<GovTalkError>,
    pub body: Option<GovTalkBody>,
}

/// What a [`GovTalkError`] says, as plain values.
pub struct GovTalkErrorView {
    pub raised_by: Seq<char>,
    pub code: int,
    pub msg: Seq<char>,
}

impl View for GovTalkError {
    type V = GovTalkErrorView;

    open spec fn view(&self) -> GovTalkErrorView {
        GovTalkErrorView { raised_by: self.raised_by@, code: self.code as int, msg: self.msg@ }
    }
}

/// The views of `errors`, in order.
pub open spec fn error_views(errors: Seq<GovTalkError>) -> Seq<GovTalkErrorView> {
    errors.map_values(|e: GovTalkError| e@)
}

/// The messages of `errors`, in order.
pub open spec fn error_messages(errors: Seq<GovTalkError>) -> Seq<Seq<char>> {
    errors.map_values(|e: GovTalkError| e.msg@)
}

/// What the executor makes of one error that the gateway reported: a missing
/// number counts as 0 and the texts are joined with `"; "`.
pub open spec fn reported_error(e: crate::proto::govtalk::GovTalkError) -> GovTalkErrorView {
    GovTalkErrorView {
        raised_by: e.raised_by@,
        code: match e.number {
            Some(n) => n as int,
            None => 0,
        },
        msg: joined(views(e.text@), MESSAGE_SEPARATOR@),
    }
}

/// The errors that a response's details block reports, in order; none where it has no error block.
pub open spec fn reported_errors(details: GovTalkDetails) -> Seq<GovTalkErrorView> {
    match details.errors {
        Some(block) => block.errors@.map_values(|e: crate::proto::govtalk::GovTalkError| reported_error(e)),
        None => Seq::empty(),
    }
}

/// The one error by which the executor reports a failure of its own.
pub open spec fn local_failure(raised_by: Seq<char>, msg: Seq<char>) -> Seq<GovTalkErrorView> {
    seq![GovTalkErrorView { raised_by, code: 0, msg }]
}

impl GovTalkErrors {
    /// The messages of all errors, joined with `"; "`.
    pub fn description(&self) -> (r: String)
        ensures
            r@ == joined(error_messages(self.errors@), MESSAGE_SEPARATOR@),
    {
        let mut messages: Vec<String> = Vec::new();
        let mut i: usize = 0;
        while i < self.errors.len()
            invariant
                i <= self.errors.len(),
                messages@.len() == i,
                forall|j: int| 0 <= j < i ==> messages@[j]@ == self.errors@[j].msg@,
            decreases self.errors.len() - i,
        {
            messages.push(self.errors[i].msg.clone());
            i += 1;
        }
        assert(views(messages@) =~= error_messages(self.errors@));
        join(&messages, MESSAGE_SEPARATOR)
    }

    /// Whether every error carries the number `code`; true of a failure without errors.
    pub fn all_have_code(&self, code: i32) -> (r: bool)
        ensures
            r == forall|i: int| 0 <= i < self.errors@.len() ==> self.errors@[i].code == code,
    {
        let mut i: usize = 0;
        while i < self.errors.len()
            invariant
                i <= self.errors.len(),
                forall|j: int| 0 <= j < i ==> self.errors@[j].code == code,
            decreases self.errors.len() - i,
        {
            if self.errors[i].code != code {
                return false;
            }
            i += 1;
        }
        true
    }
}

/// Whether `root` is the request envelope for `body`, sent by `sender` under
/// `transaction_id` to the transaction class `class`.
pub open spec fn is_request_envelope(
    root: GovTalkRoot,
    sender: &GovTalkSender,
    class: Seq<char>,
    body: GovTalkBody,
    transaction_id: String,
) -> bool {
    let message = root.message;
    let details = message.header.message_details;
    &&& message.envelope_version@ == ENVELOPE_VERSION@
    &&& details.class@ == class
    &&& details.qualifier == GovTalkQualifier::Request
    &&& details.function is None
    &&& details.transaction_id == Some(transaction_id)
    &&& details.audit_id is None
    &&& details.correlation_id is None
    &&& details.response_endpoint is None
    &&& details.transformation is None
    &&& details.gateway_test == (if sender.is_test() {
        Some(1i32)
    } else {
        None
    })
    &&& details.gateway_timestamp is None
    &&& message.header.sender_details matches Some(block)
    &&& block.describes(sender)
    &&& message.details.keys is None
    &&& message.details.target_details is None
    &&& message.details.gateway_validation is None
    &&& message.details.channel_routing@.len() == 0
    &&& message.details.errors is None
    &&& message.body == Some(body)
}

/// Builds the request envelope for `body`.
pub fn encode(sender: &GovTalkSender, class: &str, body: GovTalkBody, transaction_id: String) -> (r:
    GovTalkRoot)
    ensures
        is_request_envelope(r, sender, class@, body, transaction_id),
{
    GovTalkRoot {
        message: GovTalkMessage {
            envelope_version: ENVELOPE_VERSION.to_owned(),
            header: GovTalkHeader {
                message_details: GovTalkMessageDetails {
                    class: class.to_owned(),
                    qualifier: GovTalkQualifier::Request,
                    function: None,
                    transaction_id: Some(transaction_id),
                    audit_id: None,
                    correlation_id: None,
                    response_endpoint: None,
                    transformation: None,
                    gateway_test: if sender.is_test {
                        Some(1)
                    } else {
                        None
                    },
                    gateway_timestamp: None,
                },
                sender_details: Some(GovTalkSenderDetails::from(sender)),
            },
            details: GovTalkDetails {
                keys: None,
                target_details: None,
                gateway_validation: None,
                channel_routing: vec![],
                errors: None,
            },
            body: Some(body),
        },
    }
}

/// The errors that `details` reports, as the executor hands them on.
pub fn extract_errors(details: &GovTalkDetails) -> (r: Vec<GovTalkError>)
    ensures
        error_views(r@) == reported_errors(*details),
{
    let mut out: Vec<GovTalkError> = Vec::new();
    match &details.errors {
        Some(block) => {
            let mut i: usize = 0;
            while i < block.errors.len()
                invariant
                    i <= block.errors.len(),
                    out@.len() == i,
                    forall|j: int| 0 <= j < i ==> out@[j]@ == reported_error(#[trigger] block.errors@[j]),
                decreases block.errors.len() - i,
            {
                let e = &block.errors[i];
                out.push(
                    GovTalkError {
                        raised_by: e.raised_by.clone(),
                        code: match e.number {
                            Some(n) => n,
                            None => 0,
                        },
                        msg: join(&e.text, MESSAGE_SEPARATOR),
                    },
                );
                i += 1;
            }
        },
        None => {},
    }
    out
}

/// The failure by which the executor reports that one of its own steps went wrong.
pub fn local_error(transaction_id: String, raised_by: &str, msg: String) -> (r: GovTalkErrors)
    ensures
        r.transaction_id == transaction_id,
        error_views(r.errors@) == local_failure(raised_by@, msg@),
{
    let errors = vec![GovTalkError { raised_by: raised_by.to_owned(), code: 0, msg }];
    GovTalkErrors { transaction_id, errors }
}

/// Whether `r` is what the executor returns for the response envelope
/// `response`, read at `now`, in the transaction `transaction_id`.
///
/// An envelope qualified as `error` is a failure that carries the reported
/// errors, even where there are none. Any other envelope is a success: its
/// body, the gateway's timestamp or else `now`, and the reported errors as
/// warnings.
pub open spec fn is_outcome(
    r: Result<GovTalkResponse, GovTalkErrors>,
    transaction_id: String,
    response: GovTalkRoot,
    now: Timestamp,
) -> bool {
    let details = response.message.header.message_details;
    if details.qualifier == GovTalkQualifier::Error {
        &&& r matches Err(failure)
        &&& failure.transaction_id == transaction_id
        &&& error_views(failure.errors@) == reported_errors(response.message.details)
    } else {
        &&& r matches Ok(success)
        &&& success.transaction_id == transaction_id
        &&& success.gateway_timestamp == (match details.gateway_timestamp {
            Some(t) => t,
            None => now,
        })
        &&& success.body == response.message.body
        &&& error_views(success.warnings@) == reported_errors(response.message.details)
    }
}

/// Classifies a response envelope.
pub fn classify(transaction_id: String, response: GovTalkRoot, now: Timestamp) -> (r: Result<
    GovTalkResponse,
    GovTalkErrors,
>)
    ensures
        is_outcome(r, transaction_id, response, now),
        r is Err <==> response.message.header.message_details.qualifier == GovTalkQualifier::Error,
{
    let errors = extract_errors(&response.message.details);
    if response.message.header.message_details.qualifier == GovTalkQualifier::Error {
        return Err(GovTalkErrors { transaction_id, errors });
    }
    Ok(
        GovTalkResponse {
            transaction_id,
            gateway_timestamp: match response.message.header.message_details.gateway_timestamp {
                Some(t) => t,
                None => now,
            },
            warnings: errors,
            body: response.message.body,
        },
    )
}

/// A request envelope read back as it stands gives its body back: the
/// executor takes it for a success under the envelope's own identifier, with
/// the body that went in, no warnings, and the time of reading.
pub proof fn law_request_envelope_keeps_its_body(
    root: GovTalkRoot,
    sender: &GovTalkSender,
    class: Seq<char>,
    body: GovTalkBody,
    transaction_id: String,
    now: Timestamp,
    r: Result<GovTalkResponse, GovTalkErrors>,
)
    requires
        is_request_envelope(root, sender, class, body, transaction_id),
        is_outcome(r, transaction_id, root, now),
    ensures
        r matches Ok(success) && success.body == Some(body) && success.transaction_id == transaction_id
            && success.gateway_timestamp == now && success.warnings@.len() == 0,
{
    let success = r->Ok_0;
    assert(error_views(success.warnings@).len() == success.warnings@.len());
}

/// What the executor is waiting for.
#[derive(Debug)]
pub enum TransactionState {
    /// The request envelope is being written as XML.
    Encoding { transaction_id: String },
    /// The request is being posted and the answer read.
    Sending { transaction_id: String },
    /// The answer is being read as an envelope.
    Decoding { transaction_id: String },
    /// The transaction is over.
    Finished,
}

/// What the caller reports back after an action.
#[derive(Debug)]
pub enum TransactionEvent {
    /// The envelope as XML, or why it could not be written.
    Encoded(Result<String, String>),
    /// The text of the gateway's answer, or why there is none.
    Sent(Result<String, String>),
    /// The answer as an envelope, or why it could not be read.
    Decoded(Result<GovTalkRoot, String>),
}

/// What the caller has to do next.
#[derive(Debug)]
pub enum TransactionAction {
    /// Write the envelope as XML and report `Encoded`.
    Encode(GovTalkRoot),
    /// Post `payload` to `url` with the content type given and report `Sent`.
    Post { url: String, content_type: String, payload: String },
    /// Read `payload` as an envelope and report `Decoded`.
    Decode(String),
    /// Nothing: the transaction ended with this result.
    Finish(Result<GovTalkResponse, GovTalkErrors>),
}

impl TransactionState {
    /// The identifier of the transaction under way, if one is.
    pub open spec fn transaction_id(self) -> Option<String> {
        match self {
            TransactionState::Encoding { transaction_id } => Some(transaction_id),
            TransactionState::Sending { transaction_id } => Some(transaction_id),
            TransactionState::Decoding { transaction_id } => Some(transaction_id),
            TransactionState::Finished => None,
        }
    }
}

/// Whether the action is a failure of the executor's own, under `transaction_id`.
pub open spec fn finishes_with_local_failure(
    action: TransactionAction,
    transaction_id: String,
    raised_by: Seq<char>,
    msg: Seq<char>,
) -> bool {
    &&& action matches TransactionAction::Finish(Err(failure))
    &&& failure.transaction_id == transaction_id
    &&& error_views(failure.errors@) == local_failure(raised_by, msg)
}

/// Whether `next` and `action` are the executor's answer to `event` in
/// `state`, where a response that names no time is taken as read at `now`.
///
/// Each step either moves on to the next piece of outside work or ends the
/// transaction; none is tried twice. An event that the state does not wait
/// for ends the transaction and asks for nothing.
pub open spec fn is_step(
    state: TransactionState,
    event: TransactionEvent,
    now: Timestamp,
    next: TransactionState,
    action: TransactionAction,
) -> bool {
    match (state, event) {
        (TransactionState::Encoding { transaction_id }, TransactionEvent::Encoded(Ok(payload))) => {
            &&& next == (TransactionState::Sending { transaction_id })
            &&& action matches TransactionAction::Post { url, content_type, payload: posted }
            &&& url@ == GATEWAY@
            &&& content_type@ == CONTENT_TYPE@
            &&& posted == payload
        },
        (TransactionState::Encoding { transaction_id }, TransactionEvent::Encoded(Err(msg))) => {
            &&& next == TransactionState::Finished
            &&& finishes_with_local_failure(action, transaction_id, RAISED_BY_ENCODER@, msg@)
        },
        (TransactionState::Sending { transaction_id }, TransactionEvent::Sent(Ok(payload))) => {
            &&& next == (TransactionState::Decoding { transaction_id })
            &&& action == TransactionAction::Decode(payload)
        },
        (TransactionState::Sending { transaction_id }, TransactionEvent::Sent(Err(msg))) => {
            &&& next == TransactionState::Finished
            &&& finishes_with_local_failure(action, transaction_id, RAISED_BY_TRANSPORT@, msg@)
        },
        (TransactionState::Decoding { transaction_id }, TransactionEvent::Decoded(Ok(response))) => {
            &&& next == TransactionState::Finished
            &&& action matches TransactionAction::Finish(r)
            &&& is_outcome(r, transaction_id, response, now)
        },
        (TransactionState::Decoding { transaction_id }, TransactionEvent::Decoded(Err(msg))) => {
            &&& next == TransactionState::Finished
            &&& finishes_with_local_failure(action, transaction_id, RAISED_BY_DECODER@, msg@)
        },
        (state, _) => {
            &&& next == TransactionState::Finished
            &&& action matches TransactionAction::Finish(Err(failure))
            &&& failure.transaction_id@ == (match state.transaction_id() {
                Some(transaction_id) => transaction_id@,
                None => Seq::empty(),
            })
            &&& error_views(failure.errors@) == local_failure(RAISED_BY_TRANSPORT@, Seq::empty())
        },
    }
}

/// One step of a transaction, with the time at which a response is read given by the caller.
pub fn step_govtalk_transaction(state: TransactionState, event: TransactionEvent, now: Timestamp) -> (r: (
    TransactionState,
    TransactionAction,
))
    ensures
        is_step(state, event, now, r.0, r.1),
{
    match (state, event) {
        (TransactionState::Encoding { transaction_id }, TransactionEvent::Encoded(Ok(payload))) => (
            TransactionState::Sending { transaction_id },
            TransactionAction::Post {
                url: GATEWAY.to_owned(),
                content_type: CONTENT_TYPE.to_owned(),
                payload,
            },
        ),
        (TransactionState::Encoding { transaction_id }, TransactionEvent::Encoded(Err(msg))) => (
            TransactionState::Finished,
            TransactionAction::Finish(Err(local_error(transaction_id, RAISED_BY_ENCODER, msg))),
        ),
        (TransactionState::Sending { transaction_id }, TransactionEvent::Sent(Ok(payload))) => (
            TransactionState::Decoding { transaction_id },
            TransactionAction::Decode(payload),
        ),
        (TransactionState::Sending { transaction_id }, TransactionEvent::Sent(Err(msg))) => (
            TransactionState::Finished,
            TransactionAction::Finish(Err(local_error(transaction_id, RAISED_BY_TRANSPORT, msg))),
        ),
        (TransactionState::Decoding { transaction_id }, TransactionEvent::Decoded(Ok(response))) => (
            TransactionState::Finished,
            TransactionAction::Finish(classify(transaction_id, response, now)),
        ),
        (TransactionState::Decoding { transaction_id }, TransactionEvent::Decoded(Err(msg))) => (
            TransactionState::Finished,
            TransactionAction::Finish(Err(local_error(transaction_id, RAISED_BY_DECODER, msg))),
        ),
        (TransactionState::Finished, _) => (
            TransactionState::Finished,
            TransactionAction::Finish(Err(local_error(String::new(), RAISED_BY_TRANSPORT, String::new()))),
        ),
        (TransactionState::Encoding { transaction_id }, _) => (
            TransactionState::Finished,
            TransactionAction::Finish(Err(local_error(transaction_id, RAISED_BY_TRANSPORT, String::new()))),
        ),
        (TransactionState::Sending { transaction_id }, _) => (
            TransactionState::Finished,
            TransactionAction::Finish(Err(local_error(transaction_id, RAISED_BY_TRANSPORT, String::new()))),
        ),
        (TransactionState::Decoding { transaction_id }, _) => (
            TransactionState::Finished,
            TransactionAction::Finish(Err(local_error(transaction_id, RAISED_BY_TRANSPORT, String::new()))),
        ),
    }
}

/// Whether `state` and `action` open a transaction for `body`: a fresh
/// identifier, 32 hexadecimal digits with capital letters, and the request
/// envelope that carries it.
pub open spec fn is_opening(
    state: TransactionState,
    action: TransactionAction,
    sender: &GovTalkSender,
    class: Seq<char>,
    body: GovTalkBody,
) -> bool {
    &&& state matches TransactionState::Encoding { transaction_id }
    &&& exists|id: u128| transaction_id@ == simple_upper_text(id)
    &&& action matches TransactionAction::Encode(root)
    &&& is_request_envelope(root, sender, class, body, transaction_id)
}

/// Opens a transaction: draws its identifier and asks for the request envelope to be written.
pub fn begin_govtalk_transaction(sender: &GovTalkSender, class: &str, body: GovTalkBody) -> (r: (
    TransactionState,
    TransactionAction,
))
    ensures
        is_opening(r.0, r.1, sender, class@, body),
{
    let id = fresh_uuid();
    let transaction_id = uuid_simple_upper(id);
    let root = encode(sender, class, body, transaction_id.clone());
    (TransactionState::Encoding { transaction_id }, TransactionAction::Encode(root))
}

/// One step of a transaction: takes what the caller reports and says what to
/// do next. A response that names no time is stamped with the clock's.
pub fn exec_govtalk_transaction(state: TransactionState, event: TransactionEvent) -> (r: (
    TransactionState,
    TransactionAction,
))
    ensures
        exists|now: Timestamp| is_step(state, event, now, r.0, r.1),
{
    step_govtalk_transaction(state, event, current_time())
}

} // verus!
