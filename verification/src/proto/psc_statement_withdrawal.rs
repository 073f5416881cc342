//! On the wire: the withdrawal of a statement about significant control.

use vstd::prelude::*;

verus! {

#[derive(Clone, Debug)]
pub struct PSCStatementWithdrawal {
    pub notification: super::psc::PSCStatementNotificationType,
    pub withdrawal_date: crate::time::Date,
    pub restrictions_notice_withdrawal_reason: Option<RestrictionsNoticeWithdrawalReason>,
    pub register_entry_date: crate::time::Date,
}

#[derive(Clone, Copy, Debug, PartialEq, Eq, Structural)]
pub enum RestrictionsNoticeWithdrawalReason {
    WithdrawnByCompany,
    WithdrawnByCourtOrder
}

} // verus!
