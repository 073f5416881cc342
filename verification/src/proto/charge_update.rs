//! On the wire: the satisfaction or release of a charge.

use vstd::prelude::*;

verus! {

#[derive(Clone, Debug)]
pub struct ChargeUpdate {
    pub charge_id: ChargeID,
    pub update: Update,
    pub person_delivering: PersonDelivering,
}

#[derive(Clone, Debug)]
pub enum ChargeID {
    ChargeCode(String),
    ExistingChargeKey(ExistingChargeKey)
}

#[derive(Clone, Debug)]
pub struct ExistingChargeKey {
    pub existing_charge_key: Option<String>,
    pub creation_date: crate::time::Date,
    pub instrument_description: String,
    pub short_particulars: String,
}

#[derive(Clone, Debug)]
pub enum Update {
    Satisfaction(Satisfaction),
    PartCeaseOrRelease(PartCeaseOrRelease),
    AllCeaseOrRelease(CeaseOrReleaseType),
}

#[derive(Clone, Debug)]
pub struct PersonDelivering {
    pub name: String,
    pub address: super::base_types::CompanyAddress,
    pub interest_in_charge: String
}

#[derive(Clone, Copy, Debug, PartialEq, Eq, Structural)]
pub enum Satisfaction {
    Full,
    Part
}

#[derive(Clone, Debug)]
pub struct PartCeaseOrRelease {
    pub cease_or_release: CeaseOrReleaseType,
    pub assets_description: String,
}

#[derive(Clone, Copy, Debug, PartialEq, Eq, Structural)]
pub enum CeaseOrReleaseType {
    Cease,
    Release,
    CeaseAndRelease
}

} // verus!
