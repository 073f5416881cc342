//! The rows of the three tables that hold the gateway's durable state.

use vstd::prelude::*;
use crate::schema::Status;
use crate::time::{Date, Timestamp};

verus! {

/// One filed transaction. `id` is the local identifier, `ch_submission_id`
/// the six character number that the registry knows it by.
#[derive(Debug)]
pub struct Submission {
    pub id: u128,
    pub ch_submission_id: String,
    pub company_number: Option<String>,
    pub received_timestamp: Timestamp,
    pub customer_reference: Option<String>,
    pub status: Status,
    pub reject_reference: Option<String>,
    pub examiner_telephone: Option<String>,
    pub examiner_comment: Option<String>,
    pub document_id: Option<u128>,
    pub incorporation_date: Option<Date>,
    pub authentication_code: Option<String>,
    pub charge_code: Option<String>,
}

/// One reason that the registry gave for rejecting a submission.
#[derive(Debug)]
pub struct SubmissionRejection {
    pub id: u128,
    pub submission_id: u128,
    pub code: i32,
    pub description: String,
    pub instance_number: Option<i32>,
}

/// One document fetched from the registry and kept in the content store.
#[derive(Debug)]
pub struct Documents {
    pub id: u128,
    pub company_number: String,
    pub document_date: Date,
    pub document_type: String,
    pub document_id: String,
    pub document_filename: String,
    pub storage_filename: String,
}

impl Clone for Submission {
    fn clone(&self) -> (r: Self)
        ensures
            r == *self,
    {
        Submission {
            id: self.id,
            ch_submission_id: self.ch_submission_id.clone(),
            company_number: self.company_number.clone(),
            received_timestamp: self.received_timestamp,
            customer_reference: self.customer_reference.clone(),
            status: self.status,
            reject_reference: self.reject_reference.clone(),
            examiner_telephone: self.examiner_telephone.clone(),
            examiner_comment: self.examiner_comment.clone(),
            document_id: self.document_id,
            incorporation_date: self.incorporation_date,
            authentication_code: self.authentication_code.clone(),
            charge_code: self.charge_code.clone(),
        }
    }
}

impl Clone for SubmissionRejection {
    fn clone(&self) -> (r: Self)
        ensures
            r == *self,
    {
        SubmissionRejection {
            id: self.id,
            submission_id: self.submission_id,
            code: self.code,
            description: self.description.clone(),
            instance_number: self.instance_number,
        }
    }
}

impl Clone for Documents {
    fn clone(&self) -> (r: Self)
        ensures
            r == *self,
    {
        Documents {
            id: self.id,
            company_number: self.company_number.clone(),
            document_date: self.document_date,
            document_type: self.document_type.clone(),
            document_id: self.document_id.clone(),
            document_filename: self.document_filename.clone(),
            storage_filename: self.storage_filename.clone(),
        }
    }
}

} // verus!
