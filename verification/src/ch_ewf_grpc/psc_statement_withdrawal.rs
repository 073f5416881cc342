//! Messages of the service: the withdrawal of a statement about significant control.

use vstd::prelude::*;
use crate::time::Date;

verus! {

#[derive(Clone, Copy, Debug, PartialEq, Eq, Structural)]
pub enum RestrictionsNoticeWithdrawalReason {
    NoReason,
    WithdrawnByCompany,
    WithdrawnByCourtOrder,
}

#[derive(Clone, Debug)]
pub struct PscStatementWithdrawal {
    pub form_submission: Option<super::form_submission::FormSubmission>,
    pub statement_notification: Option<super::psc::StatementNotification>,
    pub withdrawal_date: Option<Date>,
    pub restrictions_notice_withdrawal_reason: Option<RestrictionsNoticeWithdrawalReason>,
    pub register_entry_date: Option<Date>,
}

} // verus!
