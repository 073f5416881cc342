//! Messages of the service: a return of allotment of shares.

use vstd::prelude::*;
use crate::decimal::Decimal;
use crate::time::Date;

verus! {

#[derive(Clone, Debug)]
pub struct Allotment {
    pub share_class: String,
    pub num_shares: Decimal,
    pub amount_paid_due_per_share: Decimal,
    pub amount_unpaid_per_share: Decimal,
    pub share_currency: String,
    pub share_value: Decimal,
    pub consideration: String,
}

#[derive(Clone, Debug)]
pub struct ReturnOfAllotmentShares {
    pub form_submission: Option<super::form_submission::FormSubmission>,
    pub statement_of_capital: Vec<super::base_types::Capital>,
    pub start_period: Option<Date>,
    pub end_period: Option<Date>,
    pub allotments: Vec<Allotment>,
}

} // verus!
