//! On the wire: a search for charges.

use vstd::prelude::*;

verus! {

#[derive(Clone, Debug)]
pub struct ChargeSearch {
    pub company_number: u32,
    pub company_type: Option<super::base_types::CompanyType>,
    pub company_authentication_code: String,
    pub start_date: Option<crate::time::Date>,
    pub end_date: Option<crate::time::Date>,
    pub continuation_key: Option<String>
}

#[derive(Clone, Debug)]
pub struct Charges {
    pub search_rows: i32,
    pub continuation_key: Option<String>,
    pub charges: Vec<Charge>
}

#[derive(Clone, Debug)]
pub struct Charge {
    pub charge_id: ChargeID,
    pub creation_date: crate::time::Date,
    pub acquisition_date: Option<crate::time::Date>,
    pub description: ChargeDescription,
    pub persons_entitled: String,
    pub additional_persons_entitled: bool,
}

#[derive(Clone, Debug)]
pub enum ChargeID {
    ChargeCode(String),
    ExistingChargeKey(String)
}

#[derive(Clone, Debug)]
pub enum ChargeDescription {
    ChargeDescription(String),
    InstrumentDescription(ChargeInstrumentDescription)
}

#[derive(Clone, Debug)]
pub struct ChargeInstrumentDescription {
    pub instrument_description: String,
    pub short_particulars: String,
}

} // verus!
