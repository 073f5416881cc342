//! Messages of the service: a company's payment periods.

use vstd::prelude::*;
use crate::time::Date;

verus! {

#[derive(Clone, Debug)]
pub struct PaymentPeriodsRequest {
    pub company_number: u32,
    pub company_type: Option<super::base_types::CompanyType>,
    pub authentication_code: String,
}

#[derive(Clone, Debug)]
pub struct PaymentPeriod {
    pub start_date: Option<Date>,
    pub end_date: Option<Date>,
    pub period_paid: bool,
}

#[derive(Clone, Debug)]
pub struct PaymentPeriodsResponse {
    pub periods: Vec<PaymentPeriod>,
}

} // verus!
