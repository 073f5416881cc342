//! Messages of the service: a search for charges.

use vstd::prelude::*;
use crate::time::Date;

verus! {

#[derive(Clone, Debug)]
pub struct ChargeSearchRequest {
    pub company_number: u32,
    pub company_type: Option<super::base_types::CompanyType>,
    pub authentication_code: String,
    pub start_date: Option<Date>,
    pub end_date: Option<Date>,
}

#[derive(Clone, Debug)]
pub enum ChargeId {
    ChargeCode(String),
    ExistingChargeKey(String),
}

#[derive(Clone, Debug)]
pub struct InstrumentDescription {
    pub instrument_description: String,
    pub short_particulars: String,
}

#[derive(Clone, Debug)]
pub enum Description {
    ChargeDescription(String),
    InstrumentDescription(InstrumentDescription),
}

#[derive(Clone, Debug)]
pub struct Charge {
    pub charge_id: Option<ChargeId>,
    pub created_date: Option<Date>,
    pub acquisition_date: Option<Date>,
    pub description: Option<Description>,
    pub persons_entitled: String,
    pub additional_persons_entitled: bool,
}

#[derive(Clone, Debug)]
pub struct ChargeSearchResponse {
    pub charges: Vec<Charge>,
}

} // verus!
