//! Messages of the service: a form with its header and its documents.

use vstd::prelude::*;
use crate::time::{Date, Timestamp};

verus! {

#[derive(Clone, Copy, Debug, PartialEq, Eq, Structural)]
pub enum Language {
    English,
    Welsh,
}

#[derive(Clone, Copy, Debug, PartialEq, Eq, Structural)]
pub enum SubmissionStatus {
    Pending,
    Accepted,
    Rejected,
    Parked,
    InternalFailure,
}

#[derive(Clone, Copy, Debug, PartialEq, Eq, Structural)]
pub enum ContentType {
    Pdf,
}

/// What every form says of itself.
#[derive(Clone, Debug)]
pub struct FormSubmission {
    pub company_number: u32,
    pub company_type: Option<super::base_types::CompanyType>,
    pub company_name: String,
    pub authentication_code: String,
    pub language: Option<Language>,
    pub contact_name: String,
    pub contact_number: String,
    pub customer_reference: Option<String>,
    pub date_signed: Option<Date>,
}

#[derive(Clone, Debug)]
pub struct SubmissionResponse {
    pub transaction_id: String,
    pub submission_id: String,
    pub ch_submission_number: String,
}

#[derive(Clone, Debug)]
pub struct SubmissionStatusRequest {
    pub submission_id: String,
}

#[derive(Clone, Debug)]
pub struct Rejection {
    pub reject_code: i32,
    pub description: String,
    pub instance_number: Option<i32>,
}

#[derive(Clone, Debug)]
pub struct SubmissionStatusResponse {
    pub status: SubmissionStatus,
    pub received_timestamp: Option<Timestamp>,
    pub ch_submission_number: String,
    pub company_number: String,
    pub customer_reference: String,
    pub examiner_telephone: String,
    pub examiner_comment: String,
    pub document_id: String,
    pub charge_code: String,
    pub incorporation_date: Option<Date>,
    pub authentication_code: String,
    pub reject_reference: String,
    pub rejections: Vec<Rejection>,
}

#[derive(Clone, Debug)]
pub struct DocumentRequest {
    pub document_id: String,
}

#[derive(Clone, Debug)]
pub struct DocumentResponse {
    pub date: Option<Date>,
    pub ch_document_id: String,
    pub content_type: ContentType,
    pub ch_filename: String,
    pub data: Vec<u8>,
}

} // verus!
