//! On the wire: the registration of a charge.

use vstd::prelude::*;

verus! {

#[derive(Clone, Debug)]
pub struct ChargeRegistration {
    pub creation_date: crate::time::Date,
    pub property_acquired_date: Option<crate::time::Date>,
    pub persons_entitled: PersonsEntitled,
    pub charge_description: Option<String>,
    pub fixed_charge: bool,
    pub floating_charge: Option<FloatingCharge>,
    pub negative_pledge: bool,
    pub bare_trustee: bool,
    pub deed_certification_statement: String,
    pub deed_certified_by: String,
    pub authentication: Vec<super::base_types::PersonalAttribute>,
}

#[derive(Clone, Debug)]
pub struct PersonsEntitled {
    pub chargee_names: Vec<String>,
    pub additional_chargees: bool,
}

#[derive(Clone, Copy, Debug, PartialEq, Eq, Structural)]
pub enum FloatingCharge {
    NA,
    CoversAll,
    DoesNotCoverAll
}

} // verus!
