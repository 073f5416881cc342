//! On the wire: the request for statuses and the statuses reported.

use vstd::prelude::*;

verus! {

#[derive(Clone, Debug)]
pub struct GetSubmissionStatus {
    pub reference: Option<GetSubmissionStatusReference>,
    pub presenter_id: String
}

#[derive(Clone, Debug)]
pub enum GetSubmissionStatusReference {
    CompanyNumber(String),
    SubmissionNumber(String)
}

#[derive(Clone, Debug)]
pub struct SubmissionStatus {
    pub status: Vec<Status>
}

#[derive(Clone, Debug)]
pub struct Status {
    pub submission_number: String,
    pub status_code: StatusCode,
    pub company_number: Option<String>,
    pub customer_reference: Option<String>,
    pub rejections: Option<Rejections>,
    pub details: Option<StatusDetails>,
    pub examiner: Option<Examiner>,
}

#[derive(Clone, Copy, Debug, PartialEq, Eq, Structural)]
pub enum StatusCode {
    Accepted,
    Rejected,
    Pending,
    Parked,
    InternalFailure
}

#[derive(Clone, Debug)]
pub enum StatusDetails {
    Incorporation(IncorporationDetails),
    ChangeOfName(ChangeOfNameDetails),
    Charge(ChargeDetails),
}

#[derive(Clone, Debug)]
pub struct Rejections {
    pub rejections: Vec<Reject>,
    pub reject_reference: Option<String>
}

#[derive(Clone, Debug)]
pub struct Reject {
    pub reject_code: i32,
    pub description: String,
    pub instance_number: Option<i32>
}

#[derive(Clone, Debug)]
pub struct IncorporationDetails {
    pub document_request_key: String,
    pub incorporation_date: crate::time::Date,
    pub authentication_code: String
}

#[derive(Clone, Debug)]
pub struct ChangeOfNameDetails {
    pub document_request_key: String,
}

#[derive(Clone, Debug)]
pub struct ChargeDetails {
    pub document_request_key: String,
    pub charge_code: String,
}

#[derive(Clone, Debug)]
pub struct Examiner {
    pub telephone: String,
    pub comment: Option<String>,
}

} // verus!
