//! On the wire: a return of allotment of shares.

use vstd::prelude::*;

verus! {

#[derive(Clone, Debug)]
pub struct ReturnOfAllotmentShares {
    pub start_period: crate::time::Date,
    pub end_period: Option<crate::time::Date>,
    pub statement_of_capital: super::base_types::StatementOfCapital,
    pub allotment: Vec<Allotment>
}

#[derive(Clone, Debug)]
pub struct Allotment {
    pub allotment: super::base_types::Allotment,
    pub consideration: Option<String>
}

} // verus!
