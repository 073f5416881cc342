//! Messages of the service: a statement about significant control.

use vstd::prelude::*;
use crate::time::Date;

verus! {

#[derive(Clone, Debug)]
pub struct PscStatementNotification {
    pub form_submission: Option<super::form_submission::FormSubmission>,
    pub statement_notification: Option<super::psc::StatementNotification>,
    pub register_entry_date: Option<Date>,
}

} // verus!
