//! Messages of the service: the registration of a charge.

use vstd::prelude::*;
use crate::proto::charge_registration::FloatingCharge;
use crate::time::Date;

verus! {

#[derive(Clone, Debug)]
pub struct ChargeRegistration {
    pub form_submission: Option<super::form_submission::FormSubmission>,
    pub persons_entitled: Vec<String>,
    pub additional_persons_entitled: bool,
    pub deed_certification_statement: String,
    pub deed_certified_by: String,
    pub personal_attributes: Vec<super::base_types::PersonalAttribute>,
    pub deed: Option<super::base_types::Document>,
    pub deed_supplemental: Option<super::base_types::Document>,
    pub creation_date: Option<Date>,
    pub property_acquired_date: Option<Date>,
    pub charge_description: String,
    pub fixed_charge: bool,
    pub floating_charge: Option<FloatingCharge>,
    pub negative_pledge: bool,
    pub bare_trustee: bool,
}

} // verus!
