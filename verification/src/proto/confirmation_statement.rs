//! On the wire: a confirmation statement.

use vstd::prelude::*;

verus! {

#[derive(Clone, Debug)]
pub struct ConfirmationStatement {
    pub trading_on_market: Option<bool>,
    pub dtr5_applies: Option<bool>,
    pub psc_exempt_as_trading_on_regulated_market: Option<bool>,
    pub psc_exempt_as_shares_admitted_on_market: Option<bool>,
    pub psc_exempt_as_trading_on_uk_regulated_market: Option<bool>,
    pub review_date: crate::time::Date,
    pub sic_codes: Option<super::base_types::SICCodes>,
    pub statement_of_capital: Option<super::base_types::StatementOfCapital>,
    pub shareholdings: Vec<Shareholding>,
    pub state_confirmation: bool
}

#[derive(Clone, Debug)]
pub struct Shareholding {
    pub share_class: String,
    pub number_held: crate::decimal::Decimal,
    pub transfers: Vec<Transfer>,
    pub shareholders: Vec<Shareholder>
}

#[derive(Clone, Debug)]
pub struct Transfer {
    pub date_of_transfer: crate::time::Date,
    pub number_of_shares_transferred: crate::decimal::Decimal,
}

#[derive(Clone, Debug)]
pub struct Shareholder {
    pub name: ShareholderName,
    pub address: super::base_types::BaseAddress
}

#[derive(Clone, Debug)]
pub enum ShareholderName {
    AmalgamatedName(String),
    Name(Name)
}

#[derive(Clone, Debug)]
pub struct Name {
    pub surname: String,
    pub forename: Option<String>,
}

} // verus!
