//! Messages of the service: the satisfaction or release of a charge.

use vstd::prelude::*;
use crate::proto::charge_update::{CeaseOrReleaseType, Satisfaction};
use crate::time::Date;

verus! {

#[derive(Clone, Debug)]
pub struct ExistingChargeKey {
    pub existing_charge_key: String,
    pub creation_date: Option<Date>,
    pub instrument_description: String,
    pub short_particulars: String,
}

#[derive(Clone, Debug)]
pub enum ChargeId {
    ChargeCode(String),
    ExistingChargeKey(ExistingChargeKey),
}

#[derive(Clone, Debug)]
pub struct PartCeaseOrRelease {
    pub cease_or_release: Option<CeaseOrReleaseType>,
    pub assets_description: String,
}

#[derive(Clone, Debug)]
pub enum Update {
    Satisfaction(Option<Satisfaction>),
    FullCeaseOrRelease(Option<CeaseOrReleaseType>),
    PartCeaseOrRelease(PartCeaseOrRelease),
}

#[derive(Clone, Debug)]
pub struct ChargeUpdate {
    pub form_submission: Option<super::form_submission::FormSubmission>,
    pub person_delivering_name: String,
    pub person_interest_in_charge: String,
    pub charge_id: Option<ChargeId>,
    pub update: Option<Update>,
    pub person_delivering_address: Option<super::base_types::CompanyAddress>,
}

} // verus!
