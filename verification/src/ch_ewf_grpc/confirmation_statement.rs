//! Messages of the service: a confirmation statement.

use vstd::prelude::*;
use crate::decimal::Decimal;
use crate::time::Date;

verus! {

#[derive(Clone, Debug)]
pub struct Transfer {
    pub date_of_transfer: Option<Date>,
    pub number_of_shares_transferred: Decimal,
}

#[derive(Clone, Debug)]
pub struct PartsName {
    pub forename: Option<String>,
    pub surname: String,
}

#[derive(Clone, Debug)]
pub enum ShareholderName {
    PartsName(PartsName),
    AmalgamatedName(String),
}

#[derive(Clone, Debug)]
pub struct Shareholder {
    pub name: Option<ShareholderName>,
    pub address: Option<super::base_types::BaseAddress>,
}

#[derive(Clone, Debug)]
pub struct Shareholding {
    pub share_class: String,
    pub number_held: Decimal,
    pub transfers: Vec<Transfer>,
    pub shareholders: Vec<Shareholder>,
}

#[derive(Clone, Debug)]
pub struct ConfirmationStatement {
    pub form_submission: Option<super::form_submission::FormSubmission>,
    pub state_confirmation: bool,
    pub review_date: Option<Date>,
    pub trading_on_market: Option<bool>,
    pub dtr5_applies: Option<bool>,
    pub psc_exempt_as_trading_on_regulated_market: Option<bool>,
    pub psc_exempt_as_shares_admitted_on_market: Option<bool>,
    pub psc_exempt_as_trading_on_uk_regulated_market: Option<bool>,
    pub sic_codes: Vec<String>,
    pub statement_of_capital: Vec<super::base_types::Capital>,
    pub shareholdings: Vec<Shareholding>,
}

} // verus!
