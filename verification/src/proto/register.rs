//! On the wire: names and holdings in a register of members.

use vstd::prelude::*;

verus! {

#[derive(Clone, Debug)]
pub enum MemberName {
    CorporateName(String),
    Person(Person)
}

#[derive(Clone, Debug)]
pub struct Person {
    pub forename: String,
    pub surname: String,
}

#[derive(Clone, Debug)]
pub enum StocksOrSharesHeld {
    SharesHeld(SharesHeld),
    StocksHeld(StocksHeld)
}

#[derive(Clone, Debug)]
pub struct SharesHeld {
    pub share_class: String,
    pub num_shares: crate::decimal::Decimal,
    pub share_reference: Option<String>,
    pub paid_up: crate::decimal::Decimal,
}

#[derive(Clone, Debug)]
pub struct StocksHeld {
    pub stock_class: String,
    pub amount_held: crate::decimal::Decimal,
    pub currency: String,
}

} // verus!
