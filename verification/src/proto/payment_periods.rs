//! On the wire: a company's payment periods.

use vstd::prelude::*;

verus! {

#[derive(Clone, Debug)]
pub struct PaymentPeriodsRequest {
    pub company_number: u32,
    pub company_type: Option<super::base_types::CompanyType>,
    pub company_authentication_code: String,
}

#[derive(Clone, Debug)]
pub struct PaymentPeriods {
    pub periods: Vec<PaymentPeriod>,
}

#[derive(Clone, Debug)]
pub struct PaymentPeriod {
    pub start_date: crate::time::Date,
    pub end_date: crate::time::Date,
    pub paid: bool,
}

} // verus!
