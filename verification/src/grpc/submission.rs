//! What every form has in common: how it is handed in, how the registry's
//! answer becomes a submission, and how a submission and its document are
//! reported back.

use vstd::prelude::*;
use vstd::string::*;
use crate::ch_ewf_grpc;
use crate::error::{ErrorCode, ServiceError};
use crate::gov_talk::{error_messages, GovTalkErrors, GovTalkResponse, MESSAGE_SEPARATOR};
use crate::grpc::CHFillingService;
use crate::models::{Documents, Submission, SubmissionRejection};
use crate::outside::{
    hyphenated_text, parse_uuid, parsed_uuid, to_uppercase, uppercase, utc_timestamp,
    utc_timestamp_valid, uuid_hyphenated,
};
use crate::proto;
use crate::proto::govtalk::GovTalkBody;
use crate::rules::{invalid_argument, or_empty, rejected, text_or_empty, unless, Checks};
use crate::schema::Status;
use crate::text::{byte_len, decimal_text, joined, len, u32_text};
use crate::time::{Date, Timestamp};

verus! {

/// The nanoseconds of an instant as they are carried on the service's own wire.
pub open spec fn nanos_to_proto(nanos: u32) -> i32 {
    if nanos <= i32::MAX {
        nanos as i32
    } else {
        (nanos - 0x1_0000_0000) as i32
    }
}

/// The nanoseconds on the service's own wire as an instant carries them.
pub open spec fn nanos_from_proto(nanos: i32) -> u32 {
    if nanos >= 0 {
        nanos as u32
    } else {
        (nanos + 0x1_0000_0000) as u32
    }
}

/// The instant that `time` stands for; nothing where it is missing or names none.
pub open spec fn spec_proto_to_chrono(time: Option<ch_ewf_grpc::Timestamp>) -> Option<Timestamp> {
    match time {
        Some(t) => if utc_timestamp_valid(t.seconds, nanos_from_proto(t.nanos)) {
            Some(Timestamp { seconds: t.seconds, nanos: nanos_from_proto(t.nanos) })
        } else {
            None
        },
        None => None,
    }
}

/// The UTC date that `time` falls on; nothing where it is missing or names no instant.
pub open spec fn spec_proto_to_date(time: Option<ch_ewf_grpc::Timestamp>) -> Option<Date> {
    match spec_proto_to_chrono(time) {
        Some(t) => t.spec_date(),
        None => None,
    }
}

/// An instant as it is carried on the service's own wire.
pub fn chrono_to_proto(time: Option<Timestamp>) -> (r: Option<ch_ewf_grpc::Timestamp>)
    ensures
        r == (match time {
            Some(t) => Some(ch_ewf_grpc::Timestamp { seconds: t.seconds, nanos: nanos_to_proto(t.nanos) }),
            None => None,
        }),
{
    match time {
        Some(t) => Some(
            ch_ewf_grpc::Timestamp {
                seconds: t.seconds,
                nanos: if t.nanos <= 0x7fff_ffff {
                    t.nanos as i32
                } else {
                    (t.nanos as i64 - 0x1_0000_0000) as i32
                },
            },
        ),
        None => None,
    }
}

/// The instant that stands on the service's own wire.
pub fn proto_to_chrono(time: Option<ch_ewf_grpc::Timestamp>) -> (r: Option<Timestamp>)
    ensures
        r == spec_proto_to_chrono(time),
{
    match time {
        Some(t) => {
            let nanos: u32 = if t.nanos >= 0 {
                t.nanos as u32
            } else {
                (t.nanos as i64 + 0x1_0000_0000) as u32
            };
            utc_timestamp(t.seconds, nanos)
        },
        None => None,
    }
}

/// The UTC date of the instant that stands on the service's own wire.
pub fn proto_to_date(time: Option<ch_ewf_grpc::Timestamp>) -> (r: Option<Date>)
    ensures
        r == spec_proto_to_date(time),
{
    match proto_to_chrono(time) {
        Some(t) => t.date(),
        None => None,
    }
}

/// The type of company as the wire names it.
pub open spec fn spec_company_type(ct: ch_ewf_grpc::base_types::CompanyType) -> proto::base_types::CompanyType {
    match ct {
        ch_ewf_grpc::base_types::CompanyType::CompanyEnglandAndWales => proto::base_types::CompanyType::EW,
        ch_ewf_grpc::base_types::CompanyType::CompanyScotland => proto::base_types::CompanyType::SC,
        ch_ewf_grpc::base_types::CompanyType::CompanyNorthernIreland => proto::base_types::CompanyType::NI,
        ch_ewf_grpc::base_types::CompanyType::CompanyIreland => proto::base_types::CompanyType::R,
        ch_ewf_grpc::base_types::CompanyType::LimitedLiabilityPartnershipEnglandAndWales => {
            proto::base_types::CompanyType::OC
        },
        ch_ewf_grpc::base_types::CompanyType::LimitedLiabilityPartnershipScotland => proto::base_types::CompanyType::SO,
        ch_ewf_grpc::base_types::CompanyType::LimitedLiabilityPartnershipNorthernIreland => {
            proto::base_types::CompanyType::NC
        },
    }
}

/// The kind of record as the wire names it.
pub open spec fn spec_record_type(ct: ch_ewf_grpc::base_types::RecordType) -> proto::base_types::RecordType {
    match ct {
        ch_ewf_grpc::base_types::RecordType::Directors => proto::base_types::RecordType::Directors,
        ch_ewf_grpc::base_types::RecordType::DirectorsServiceContracts => {
            proto::base_types::RecordType::DirectorsServiceContracts
        },
        ch_ewf_grpc::base_types::RecordType::DirectorsIndemnities => {
            proto::base_types::RecordType::DirectorsIndemnities
        },
        ch_ewf_grpc::base_types::RecordType::Members => proto::base_types::RecordType::Members,
        ch_ewf_grpc::base_types::RecordType::Secretaries => proto::base_types::RecordType::Secretaries,
        ch_ewf_grpc::base_types::RecordType::RegisterOfInterests => proto::base_types::RecordType::RegisterOfInterests,
        ch_ewf_grpc::base_types::RecordType::PersonsOfSignificantControl => {
            proto::base_types::RecordType::PersonsOfSignificantControl
        },
        ch_ewf_grpc::base_types::RecordType::InvestigationReports => {
            proto::base_types::RecordType::InvestigationReports
        },
        ch_ewf_grpc::base_types::RecordType::OwnShareCapital => proto::base_types::RecordType::OwnShareCapital,
        ch_ewf_grpc::base_types::RecordType::OwnSharePurchaseContracts => {
            proto::base_types::RecordType::OwnSharePurchaseContracts
        },
        ch_ewf_grpc::base_types::RecordType::RegisterOfChargesEnglandWalesAndNorthernIreland => {
            proto::base_types::RecordType::RegisterOfChargesEnglandWalesAndNorthernIreland
        },
        ch_ewf_grpc::base_types::RecordType::RegisterOfChargesScotland => {
            proto::base_types::RecordType::RegisterOfChargesScotland
        },
        ch_ewf_grpc::base_types::RecordType::DebentureHolders => proto::base_types::RecordType::DebentureHolders,
        ch_ewf_grpc::base_types::RecordType::ResolutionsAndMeetings => {
            proto::base_types::RecordType::ResolutionsAndMeetings
        },
        ch_ewf_grpc::base_types::RecordType::LlpMembers => proto::base_types::RecordType::LLPMembers,
    }
}

/// The register as the wire names it.
pub open spec fn spec_register_type(ct: ch_ewf_grpc::base_types::Register) -> proto::base_types::RegisterType {
    match ct {
        ch_ewf_grpc::base_types::Register::Directors => proto::base_types::RegisterType::Directors,
        ch_ewf_grpc::base_types::Register::DirectorsUsualResidentialAddress => {
            proto::base_types::RegisterType::DirectorsUsualResidentialAddress
        },
        ch_ewf_grpc::base_types::Register::Secretaries => proto::base_types::RegisterType::Secretaries,
        ch_ewf_grpc::base_types::Register::Members => proto::base_types::RegisterType::Members,
        ch_ewf_grpc::base_types::Register::PersonsOfSignificantControl => {
            proto::base_types::RegisterType::PersonsOfSignificantControl
        },
        ch_ewf_grpc::base_types::Register::LlpMembers => proto::base_types::RegisterType::LLPMembers,
        ch_ewf_grpc::base_types::Register::LlpMembersUsualResidentialAddress => {
            proto::base_types::RegisterType::LLPMembersUsualResidentialAddress
        },
    }
}

/// `value` renamed by `rename`, where it names anything.
pub open spec fn renamed<A, B>(value: Option<A>, rename: spec_fn(A) -> B) -> Option<B> {
    match value {
        Some(v) => Some(rename(v)),
        None => None,
    }
}

/// The stored status as a reply names it.
pub open spec fn spec_status_message(status: Status) -> ch_ewf_grpc::form_submission::SubmissionStatus {
    match status {
        Status::Accepted => ch_ewf_grpc::form_submission::SubmissionStatus::Accepted,
        Status::Rejected => ch_ewf_grpc::form_submission::SubmissionStatus::Rejected,
        Status::Pending => ch_ewf_grpc::form_submission::SubmissionStatus::Pending,
        Status::Parked => ch_ewf_grpc::form_submission::SubmissionStatus::Parked,
        Status::InternalFailure => ch_ewf_grpc::form_submission::SubmissionStatus::InternalFailure,
    }
}

/// What is told of a transaction that the registry declined: its identifier
/// and the messages of its errors, joined with `"; "`.
pub open spec fn declined_message(e: GovTalkErrors) -> Seq<char> {
    "Transaction ID: "@ + e.transaction_id@ + "; error description: "@ + joined(
        error_messages(e.errors@),
        MESSAGE_SEPARATOR@,
    )
}

/// The failure that tells of a transaction that the registry declined.
pub fn declined(e: &GovTalkErrors) -> (r: ServiceError)
    ensures
        r.is(ErrorCode::Unknown, declined_message(*e)),
{
    let mut message = "Transaction ID: ".to_owned();
    message.append(e.transaction_id.as_str());
    message.append("; error description: ");
    message.append(e.description().as_str());
    ServiceError::unknown(message)
}

/// The failure that tells of an answer that is not the kind asked for.
pub fn mismatched<T>() -> (r: Result<T, ServiceError>)
    ensures
        r matches Err(e) && e.is(ErrorCode::Internal, "Mismatched response message received"@),
{
    Err(ServiceError::internal("Mismatched response message received".to_owned()))
}

/// A form that was checked and is ready to be handed in: what it says of
/// itself, its transaction class and form type, the form and its documents.
#[derive(Debug)]
pub struct FormRequest {
    pub form_submission: Option<ch_ewf_grpc::form_submission::FormSubmission>,
    pub submission_class: String,
    pub form_type: String,
    pub form: proto::form_submission::Form,
    pub documents: Vec<proto::form_submission::Document>,
}

impl FormRequest {
    /// Whether `self` hands in a form of the class `class` and the type
    /// `form_type` that says `form_submission` of itself and comes without documents.
    pub open spec fn is_for(
        self,
        form_submission: Option<ch_ewf_grpc::form_submission::FormSubmission>,
        class: Seq<char>,
        form_type: Seq<char>,
    ) -> bool {
        &&& self.form_submission == form_submission
        &&& self.submission_class@ == class
        &&& self.form_type@ == form_type
        &&& self.documents@.len() == 0
    }
}

/// What has to be sent for a form, and what has to be kept for the submission's row.
#[derive(Debug)]
pub struct FormTransaction {
    /// The transaction class.
    pub class: String,
    /// The body of the request envelope.
    pub body: GovTalkBody,
    /// The company number with the prefix of the company's type; nothing
    /// where there is no company yet.
    pub company_number: Option<String>,
    /// The customer's own reference.
    pub customer_reference: Option<String>,
    /// The number that the submission was given.
    pub submission_number: String,
}

/// Why a form is refused for what it says of itself, if it is.
pub open spec fn form_submission_rejection(
    form_submission: Option<ch_ewf_grpc::form_submission::FormSubmission>,
) -> Option<Seq<char>> {
    match form_submission {
        None => Some("Form submission required"@),
        Some(f) => unless(3 <= byte_len(f.company_name@) <= 160, "Invalid company name length"@).otherwise(
            unless(
                6 <= byte_len(f.authentication_code@) <= 8,
                "Company authentication code of the wrong length"@,
            ),
        ).otherwise(unless(f.company_type is Some, "Invalid company type"@)).otherwise(
            unless(f.language is Some, "Language required"@),
        ).otherwise(unless(f.date_signed is Some, "Date signed required"@)),
    }
}

/// The language of a form as the wire names it.
pub open spec fn spec_language(
    language: ch_ewf_grpc::form_submission::Language,
) -> proto::form_submission::SubmissionLanguage {
    match language {
        ch_ewf_grpc::form_submission::Language::English => proto::form_submission::SubmissionLanguage::English,
        ch_ewf_grpc::form_submission::Language::Welsh => proto::form_submission::SubmissionLanguage::Welsh,
    }
}

/// Whether `header` is the header of the form that says `f` of itself.
///
/// The company's name goes in capital letters. The contact's name and number
/// go together: both are left out where both are empty.
pub open spec fn is_form_header(
    header: proto::form_submission::FormHeader,
    f: ch_ewf_grpc::form_submission::FormSubmission,
    package_reference: String,
    form_type: Seq<char>,
    submission_number: String,
) -> bool {
    let no_contact = f.contact_name@.len() == 0 && f.contact_number@.len() == 0;
    &&& header.company_number == Some(f.company_number)
    &&& f.company_type matches Some(company_type)
    &&& header.company_type == Some(spec_company_type(company_type))
    &&& header.company_name@ == uppercase(f.company_name@)
    &&& header.company_authentication_code == Some(f.authentication_code)
    &&& header.package_reference == package_reference
    &&& f.language matches Some(language)
    &&& header.language == spec_language(language)
    &&& header.form_identifier@ == form_type
    &&& header.submission_number == submission_number
    &&& header.contact_name == (if no_contact {
        None
    } else {
        Some(f.contact_name)
    })
    &&& header.contact_number == (if no_contact {
        None
    } else {
        Some(f.contact_number)
    })
    &&& header.customer_reference == f.customer_reference
}

/// Whether `t` is what has to be sent and kept for the form `form`, which
/// says `f` of itself.
pub open spec fn is_form_transaction(
    t: FormTransaction,
    f: ch_ewf_grpc::form_submission::FormSubmission,
    package_reference: String,
    submission_class: Seq<char>,
    form_type: Seq<char>,
    form: proto::form_submission::Form,
    documents: Vec<proto::form_submission::Document>,
    submission_number: String,
) -> bool {
    &&& t.class@ == submission_class
    &&& t.body matches GovTalkBody::FormSubmission(body)
    &&& is_form_header((*body).form_header, f, package_reference, form_type, submission_number)
    &&& f.date_signed == Some((*body).date_signed)
    &&& (*body).form == form
    &&& (*body).additional_information is None
    &&& (*body).documents == documents
    &&& f.company_type matches Some(company_type)
    &&& t.company_number matches Some(number)
    &&& number@ == spec_company_type(company_type).prefix() + decimal_text(f.company_number as nat)
    &&& t.customer_reference == f.customer_reference
    &&& t.submission_number == submission_number
}

/// Whether `row` is the row of a submission just handed in: pending, and
/// with nothing yet of what the registry will report.
pub open spec fn is_new_submission(
    row: Submission,
    submission_id: u128,
    t: FormTransaction,
    received: Timestamp,
) -> bool {
    &&& row.id == submission_id
    &&& row.ch_submission_id == t.submission_number
    &&& row.company_number == t.company_number
    &&& row.received_timestamp == received
    &&& row.customer_reference == t.customer_reference
    &&& row.status == Status::Pending
    &&& row.reject_reference is None
    &&& row.examiner_telephone is None
    &&& row.examiner_comment is None
    &&& row.document_id is None
    &&& row.incorporation_date is None
    &&& row.authentication_code is None
    &&& row.charge_code is None
}

/// Whether `r` is what the registry's answer to a form comes to: a declined
/// transaction is told as such, and any other gives the row of the new
/// submission, received when the gateway says, and the reply to the caller.
pub open spec fn is_form_outcome(
    r: Result<(Submission, ch_ewf_grpc::form_submission::SubmissionResponse), ServiceError>,
    submission_id: u128,
    t: FormTransaction,
    result: Result<GovTalkResponse, GovTalkErrors>,
) -> bool {
    match result {
        Err(e) => r matches Err(failure) && failure.is(ErrorCode::Unknown, declined_message(e)),
        Ok(response) => {
            &&& r matches Ok((row, reply))
            &&& is_new_submission(row, submission_id, t, response.gateway_timestamp)
            &&& reply.transaction_id == response.transaction_id
            &&& reply.submission_id@ == hyphenated_text(submission_id)
            &&& reply.ch_submission_number@ == t.submission_number@
        },
    }
}

/// The rejection of a submission as a reply lists it.
pub open spec fn spec_rejection_message(r: SubmissionRejection) -> ch_ewf_grpc::form_submission::Rejection {
    ch_ewf_grpc::form_submission::Rejection {
        reject_code: r.code,
        description: r.description,
        instance_number: r.instance_number,
    }
}

/// The instant at which `date` begins, as it is carried on the service's own wire.
pub open spec fn spec_date_message(date: Date) -> ch_ewf_grpc::Timestamp {
    ch_ewf_grpc::Timestamp { seconds: date.spec_midnight().seconds, nanos: 0 }
}

/// Whether `reply` reports the submission `submission` with its rejections:
/// every part as stored, a missing part as an empty text.
pub open spec fn is_status_reply(
    reply: ch_ewf_grpc::form_submission::SubmissionStatusResponse,
    submission: Submission,
    rejections: Seq<SubmissionRejection>,
) -> bool {
    &&& reply.status == spec_status_message(submission.status)
    &&& reply.received_timestamp == Some(submission.received_timestamp)
    &&& reply.ch_submission_number == submission.ch_submission_id
    &&& reply.company_number@ == text_or_empty(submission.company_number)
    &&& reply.customer_reference@ == text_or_empty(submission.customer_reference)
    &&& reply.examiner_telephone@ == text_or_empty(submission.examiner_telephone)
    &&& reply.examiner_comment@ == text_or_empty(submission.examiner_comment)
    &&& reply.document_id@ == (match submission.document_id {
        Some(id) => hyphenated_text(id),
        None => Seq::empty(),
    })
    &&& reply.charge_code@ == text_or_empty(submission.charge_code)
    &&& reply.incorporation_date == submission.incorporation_date
    &&& reply.authentication_code@ == text_or_empty(submission.authentication_code)
    &&& reply.reject_reference@ == text_or_empty(submission.reject_reference)
    &&& reply.rejections@ == rejections.map_values(|r: SubmissionRejection| spec_rejection_message(r))
}

/// The instant at which `date` begins, as it is carried on the service's own wire.
pub fn date_to_proto(date: Date) -> (r: ch_ewf_grpc::Timestamp)
    ensures
        r == spec_date_message(date),
{
    ch_ewf_grpc::Timestamp { seconds: date.midnight().seconds, nanos: 0 }
}

impl CHFillingService {
    /// The forenames and surnames that an officer went by, as a reply lists them.
    pub fn map_previous_names(names: Vec<proto::base_types::PreviousNameType>) -> (r: Vec<
        ch_ewf_grpc::base_types::PreviousName,
    >)
        ensures
            r@.len() == names@.len(),
            forall|i: int| 0 <= i < r@.len() ==> (#[trigger] r@[i]).is_from(names@[i]),
    {
        let mut out: Vec<ch_ewf_grpc::base_types::PreviousName> = Vec::new();
        let ghost all = names@;
        for name in it: names
            invariant
                it.seq() == all,
                out@.len() == it.index(),
                forall|j: int| 0 <= j < it.index() ==> (#[trigger] out@[j]).is_from(all[j]),
        {
            out.push(ch_ewf_grpc::base_types::PreviousName::from(name));
        }
        out
    }

    /// The type of company as the wire names it; nothing where the request names none.
    pub fn map_company_type(ct: Option<ch_ewf_grpc::base_types::CompanyType>) -> (r: Option<
        proto::base_types::CompanyType,
    >)
        ensures
            r == renamed(ct, |c: ch_ewf_grpc::base_types::CompanyType| spec_company_type(c)),
    {
        match ct {
            Some(ch_ewf_grpc::base_types::CompanyType::CompanyEnglandAndWales) => {
                Some(proto::base_types::CompanyType::EW)
            },
            Some(ch_ewf_grpc::base_types::CompanyType::CompanyScotland) => Some(proto::base_types::CompanyType::SC),
            Some(ch_ewf_grpc::base_types::CompanyType::CompanyNorthernIreland) => {
                Some(proto::base_types::CompanyType::NI)
            },
            Some(ch_ewf_grpc::base_types::CompanyType::CompanyIreland) => Some(proto::base_types::CompanyType::R),
            Some(ch_ewf_grpc::base_types::CompanyType::LimitedLiabilityPartnershipEnglandAndWales) => Some(
                proto::base_types::CompanyType::OC,
            ),
            Some(ch_ewf_grpc::base_types::CompanyType::LimitedLiabilityPartnershipScotland) => Some(
                proto::base_types::CompanyType::SO,
            ),
            Some(ch_ewf_grpc::base_types::CompanyType::LimitedLiabilityPartnershipNorthernIreland) => Some(
                proto::base_types::CompanyType::NC,
            ),
            None => None,
        }
    }

    /// The kind of record as the wire names it; nothing where the request names none.
    pub fn map_record_type(ct: Option<ch_ewf_grpc::base_types::RecordType>) -> (r: Option<
        proto::base_types::RecordType,
    >)
        ensures
            r == renamed(ct, |c: ch_ewf_grpc::base_types::RecordType| spec_record_type(c)),
    {
        match ct {
            Some(ch_ewf_grpc::base_types::RecordType::Directors) => Some(proto::base_types::RecordType::Directors),
            Some(ch_ewf_grpc::base_types::RecordType::DirectorsServiceContracts) => Some(
                proto::base_types::RecordType::DirectorsServiceContracts,
            ),
            Some(ch_ewf_grpc::base_types::RecordType::DirectorsIndemnities) => Some(
                proto::base_types::RecordType::DirectorsIndemnities,
            ),
            Some(ch_ewf_grpc::base_types::RecordType::Members) => Some(proto::base_types::RecordType::Members),
            Some(ch_ewf_grpc::base_types::RecordType::Secretaries) => Some(proto::base_types::RecordType::Secretaries),
            Some(ch_ewf_grpc::base_types::RecordType::RegisterOfInterests) => Some(
                proto::base_types::RecordType::RegisterOfInterests,
            ),
            Some(ch_ewf_grpc::base_types::RecordType::PersonsOfSignificantControl) => Some(
                proto::base_types::RecordType::PersonsOfSignificantControl,
            ),
            Some(ch_ewf_grpc::base_types::RecordType::InvestigationReports) => Some(
                proto::base_types::RecordType::InvestigationReports,
            ),
            Some(ch_ewf_grpc::base_types::RecordType::OwnShareCapital) => Some(
                proto::base_types::RecordType::OwnShareCapital,
            ),
            Some(ch_ewf_grpc::base_types::RecordType::OwnSharePurchaseContracts) => Some(
                proto::base_types::RecordType::OwnSharePurchaseContracts,
            ),
            Some(ch_ewf_grpc::base_types::RecordType::RegisterOfChargesEnglandWalesAndNorthernIreland) => Some(
                proto::base_types::RecordType::RegisterOfChargesEnglandWalesAndNorthernIreland,
            ),
            Some(ch_ewf_grpc::base_types::RecordType::RegisterOfChargesScotland) => Some(
                proto::base_types::RecordType::RegisterOfChargesScotland,
            ),
            Some(ch_ewf_grpc::base_types::RecordType::DebentureHolders) => Some(
                proto::base_types::RecordType::DebentureHolders,
            ),
            Some(ch_ewf_grpc::base_types::RecordType::ResolutionsAndMeetings) => Some(
                proto::base_types::RecordType::ResolutionsAndMeetings,
            ),
            Some(ch_ewf_grpc::base_types::RecordType::LlpMembers) => Some(proto::base_types::RecordType::LLPMembers),
            None => None,
        }
    }

    /// The register as the wire names it; nothing where the request names none.
    pub fn map_register_type(ct: Option<ch_ewf_grpc::base_types::Register>) -> (r: Option<
        proto::base_types::RegisterType,
    >)
        ensures
            r == renamed(ct, |c: ch_ewf_grpc::base_types::Register| spec_register_type(c)),
    {
        match ct {
            Some(ch_ewf_grpc::base_types::Register::Directors) => Some(proto::base_types::RegisterType::Directors),
            Some(ch_ewf_grpc::base_types::Register::DirectorsUsualResidentialAddress) => Some(
                proto::base_types::RegisterType::DirectorsUsualResidentialAddress,
            ),
            Some(ch_ewf_grpc::base_types::Register::Secretaries) => Some(proto::base_types::RegisterType::Secretaries),
            Some(ch_ewf_grpc::base_types::Register::Members) => Some(proto::base_types::RegisterType::Members),
            Some(ch_ewf_grpc::base_types::Register::PersonsOfSignificantControl) => Some(
                proto::base_types::RegisterType::PersonsOfSignificantControl,
            ),
            Some(ch_ewf_grpc::base_types::Register::LlpMembers) => Some(proto::base_types::RegisterType::LLPMembers),
            Some(ch_ewf_grpc::base_types::Register::LlpMembersUsualResidentialAddress) => Some(
                proto::base_types::RegisterType::LLPMembersUsualResidentialAddress,
            ),
            None => None,
        }
    }

    /// Checks what a form says of itself and puts together what has to be
    /// sent for it, under the submission number that was allocated to it.
    pub fn form_submission(
        &self,
        form_submission: Option<ch_ewf_grpc::form_submission::FormSubmission>,
        submission_class: &str,
        form_type: &str,
        form: proto::form_submission::Form,
        documents: Vec<proto::form_submission::Document>,
        submission_number: String,
    ) -> (r: Result<FormTransaction, ServiceError>)
        ensures
            match form_submission_rejection(form_submission) {
                Some(message) => rejected(r, message),
                None => r matches Ok(t) && is_form_transaction(
                    t,
                    form_submission->0,
                    self.package_reference,
                    submission_class@,
                    form_type@,
                    form,
                    documents,
                    submission_number,
                ),
            },
    {
        let form_submission = match form_submission {
            Some(f) => f,
            None => {
                return invalid_argument("Form submission required");
            },
        };
        let name_length = len(form_submission.company_name.as_str());
        if name_length < 3 || name_length > 160 {
            return invalid_argument("Invalid company name length");
        }
        match Self::check_authentication_code(form_submission.authentication_code.as_str()) {
            Ok(()) => {},
            Err(e) => {
                return Err(e);
            },
        }
        let company_type = match Self::map_company_type(form_submission.company_type) {
            Some(c) => c,
            None => {
                return invalid_argument("Invalid company type");
            },
        };
        let language = match form_submission.language {
            Some(ch_ewf_grpc::form_submission::Language::English) => {
                proto::form_submission::SubmissionLanguage::English
            },
            Some(ch_ewf_grpc::form_submission::Language::Welsh) => proto::form_submission::SubmissionLanguage::Welsh,
            None => {
                return invalid_argument("Language required");
            },
        };
        let date_signed = match form_submission.date_signed {
            Some(d) => d,
            None => {
                return invalid_argument("Date signed required");
            },
        };
        let no_contact = form_submission.contact_name.as_str().is_empty()
            && form_submission.contact_number.as_str().is_empty();
        let mut company_number = company_type.to_string();
        company_number.append(u32_text(form_submission.company_number).as_str());
        let customer_reference = form_submission.customer_reference.clone();
        let body = GovTalkBody::FormSubmission(
            Box::new(
                proto::form_submission::FormSubmission {
                    form_header: proto::form_submission::FormHeader {
                        company_number: Some(form_submission.company_number),
                        company_type: Some(company_type),
                        company_name: to_uppercase(form_submission.company_name.as_str()),
                        company_authentication_code: Some(form_submission.authentication_code),
                        package_reference: self.package_reference.clone(),
                        language,
                        form_identifier: form_type.to_owned(),
                        submission_number: submission_number.clone(),
                        contact_name: if no_contact {
                            None
                        } else {
                            Some(form_submission.contact_name)
                        },
                        contact_number: if no_contact {
                            None
                        } else {
                            Some(form_submission.contact_number)
                        },
                        customer_reference: form_submission.customer_reference,
                    },
                    date_signed,
                    form,
                    additional_information: None,
                    documents,
                },
            ),
        );
        Ok(
            FormTransaction {
                class: submission_class.to_owned(),
                body,
                company_number: Some(company_number),
                customer_reference,
                submission_number,
            },
        )
    }

    /// Turns the registry's answer to a form into the submission's row and the reply to the caller.
    pub fn form_submission_outcome(
        submission_id: u128,
        transaction: FormTransaction,
        result: Result<GovTalkResponse, GovTalkErrors>,
    ) -> (r: Result<(Submission, ch_ewf_grpc::form_submission::SubmissionResponse), ServiceError>)
        ensures
            is_form_outcome(r, submission_id, transaction, result),
    {
        let response = match result {
            Ok(response) => response,
            Err(e) => {
                return Err(declined(&e));
            },
        };
        let new_submission = Submission {
            id: submission_id,
            ch_submission_id: transaction.submission_number.clone(),
            company_number: transaction.company_number,
            received_timestamp: response.gateway_timestamp,
            customer_reference: transaction.customer_reference,
            status: Status::Pending,
            reject_reference: None,
            examiner_telephone: None,
            examiner_comment: None,
            document_id: None,
            authentication_code: None,
            charge_code: None,
            incorporation_date: None,
        };
        Ok(
            (
                new_submission,
                ch_ewf_grpc::form_submission::SubmissionResponse {
                    transaction_id: response.transaction_id,
                    submission_id: uuid_hyphenated(submission_id),
                    ch_submission_number: transaction.submission_number,
                },
            ),
        )
    }

    /// What saving the new submission's row comes to: the reply, or the failure to save.
    pub fn form_submission_saved(
        reply: ch_ewf_grpc::form_submission::SubmissionResponse,
        saved: Result<(), String>,
    ) -> (r: Result<ch_ewf_grpc::form_submission::SubmissionResponse, ServiceError>)
        ensures
            match saved {
                Ok(()) => r == Ok::<ch_ewf_grpc::form_submission::SubmissionResponse, ServiceError>(reply),
                Err(reason) => r matches Err(e) && e.is(
                    ErrorCode::Internal,
                    "Unable to save submission to DB: "@ + reason@,
                ),
            },
    {
        match saved {
            Ok(()) => Ok(reply),
            Err(reason) => {
                let mut message = "Unable to save submission to DB: ".to_owned();
                message.append(reason.as_str());
                Err(ServiceError::internal(message))
            },
        }
    }

    /// Reads the identifier of the submission that a status request asks for.
    pub fn submission_status(msg: ch_ewf_grpc::form_submission::SubmissionStatusRequest) -> (r: Result<
        u128,
        ServiceError,
    >)
        ensures
            match parsed_uuid(msg.submission_id@) {
                Some(id) => r == Ok::<u128, ServiceError>(id),
                None => r matches Err(e) && e.is(ErrorCode::NotFound, "Invalid submission ID"@),
            },
    {
        match parse_uuid(msg.submission_id.as_str()) {
            Some(id) => Ok(id),
            None => Err(ServiceError::not_found("Invalid submission ID")),
        }
    }

    /// Reports a submission that was looked up, with its rejections.
    pub fn submission_status_reply(
        submission: Option<Submission>,
        rejections: Vec<SubmissionRejection>,
    ) -> (r: Result<ch_ewf_grpc::form_submission::SubmissionStatusResponse, ServiceError>)
        ensures
            match submission {
                Some(s) => r matches Ok(reply) && is_status_reply(reply, s, rejections@),
                None => r matches Err(e) && e.is(ErrorCode::NotFound, "Submission not found"@),
            },
    {
        let submission = match submission {
            Some(s) => s,
            None => {
                return Err(ServiceError::not_found("Submission not found"));
            },
        };
        let mut listed: Vec<ch_ewf_grpc::form_submission::Rejection> = Vec::new();
        let ghost all = rejections@;
        for r in it: rejections
            invariant
                it.seq() == all,
                listed@.len() == it.index(),
                forall|j: int| 0 <= j < it.index() ==> listed@[j] == spec_rejection_message(all[j]),
        {
            listed.push(
                ch_ewf_grpc::form_submission::Rejection {
                    reject_code: r.code,
                    description: r.description,
                    instance_number: r.instance_number,
                },
            );
        }
        assert(listed@ =~= all.map_values(|r: SubmissionRejection| spec_rejection_message(r)));
        Ok(
            ch_ewf_grpc::form_submission::SubmissionStatusResponse {
                status: match submission.status {
                    Status::Accepted => ch_ewf_grpc::form_submission::SubmissionStatus::Accepted,
                    Status::Rejected => ch_ewf_grpc::form_submission::SubmissionStatus::Rejected,
                    Status::Pending => ch_ewf_grpc::form_submission::SubmissionStatus::Pending,
                    Status::Parked => ch_ewf_grpc::form_submission::SubmissionStatus::Parked,
                    Status::InternalFailure => ch_ewf_grpc::form_submission::SubmissionStatus::InternalFailure,
                },
                received_timestamp: Some(submission.received_timestamp),
                ch_submission_number: submission.ch_submission_id,
                company_number: or_empty(submission.company_number),
                customer_reference: or_empty(submission.customer_reference),
                examiner_telephone: or_empty(submission.examiner_telephone),
                examiner_comment: or_empty(submission.examiner_comment),
                document_id: match submission.document_id {
                    Some(id) => uuid_hyphenated(id),
                    None => String::new(),
                },
                charge_code: or_empty(submission.charge_code),
                incorporation_date: submission.incorporation_date,
                authentication_code: or_empty(submission.authentication_code),
                reject_reference: or_empty(submission.reject_reference),
                rejections: listed,
            },
        )
    }

    /// Reads the identifier of the document that a document request asks for.
    pub fn document(msg: ch_ewf_grpc::form_submission::DocumentRequest) -> (r: Result<u128, ServiceError>)
        ensures
            match parsed_uuid(msg.document_id@) {
                Some(id) => r == Ok::<u128, ServiceError>(id),
                None => r matches Err(e) && e.is(ErrorCode::NotFound, "Invalid document ID"@),
            },
    {
        match parse_uuid(msg.document_id.as_str()) {
            Some(id) => Ok(id),
            None => Err(ServiceError::not_found("Invalid document ID")),
        }
    }

    /// Reports a document that was looked up, with its content as read from the content store.
    pub fn document_reply(document: Option<Documents>, data: Result<Vec<u8>, String>) -> (r: Result<
        ch_ewf_grpc::form_submission::DocumentResponse,
        ServiceError,
    >)
        ensures
            match (document, data) {
                (None, _) => r matches Err(e) && e.is(ErrorCode::NotFound, "Document not found"@),
                (Some(_), Err(_)) => r matches Err(e) && e.is(ErrorCode::Internal, "Error accessing document"@),
                (Some(d), Ok(bytes)) => r == Ok::<ch_ewf_grpc::form_submission::DocumentResponse, ServiceError>(
                    ch_ewf_grpc::form_submission::DocumentResponse {
                        date: Some(d.document_date),
                        ch_document_id: d.document_id,
                        content_type: ch_ewf_grpc::form_submission::ContentType::Pdf,
                        ch_filename: d.document_filename,
                        data: bytes,
                    },
                ),
            },
    {
        let document = match document {
            Some(d) => d,
            None => {
                return Err(ServiceError::not_found("Document not found"));
            },
        };
        let bytes = match data {
            Ok(bytes) => bytes,
            Err(_) => {
                return Err(ServiceError::internal("Error accessing document".to_owned()));
            },
        };
        Ok(
            ch_ewf_grpc::form_submission::DocumentResponse {
                date: Some(document.document_date),
                ch_document_id: document.document_id,
                content_type: ch_ewf_grpc::form_submission::ContentType::Pdf,
                ch_filename: document.document_filename,
                data: bytes,
            },
        )
    }

    /// The failure that tells of tables that could not be read.
    pub fn database_failure() -> (r: ServiceError)
        ensures
            r.is(ErrorCode::Internal, "Error accessing database"@),
    {
        ServiceError::internal("Error accessing database".to_owned())
    }
}

} // verus!
