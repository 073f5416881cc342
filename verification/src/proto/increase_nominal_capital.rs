//! On the wire: an increase of nominal capital.

use vstd::prelude::*;

verus! {

#[derive(Clone, Debug)]
pub struct IncreaseNominalCapital {
    pub resolution_date: crate::time::Date,
    pub currency: String,
    pub amount_of_increase: crate::decimal::Decimal,
    pub conditions: String,
    pub nominal_capital: crate::decimal::Decimal,
    pub resolution: Resolution
}

#[derive(Clone, Debug)]
pub struct Resolution {
    pub capital: Vec<super::base_types::Capital>,
    pub resolution_type: ResolutionType,
    pub meeting_type: MeetingType,
    pub address: Option<super::base_types::BaseAddress>
}

#[derive(Clone, Copy, Debug, PartialEq, Eq, Structural)]
pub enum ResolutionType {
    Ordinary,
    Special,
    Extraordinary,
}

#[derive(Clone, Copy, Debug, PartialEq, Eq, Structural)]
pub enum MeetingType {
    Annual,
    Extraordinary
}

} // verus!
