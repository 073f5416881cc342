//! On the wire: the registration for corporation tax that may come with an incorporation.

use vstd::prelude::*;

verus! {

#[derive(Clone, Debug)]
pub struct CorporationTaxInformation {
    pub abbreviated_company_name: Option<String>,
    pub first_accounting_period_start_date: crate::time::Date,
    pub accounts_made_up_date: crate::time::Date,
    pub ct61_may_apply: bool,
    pub principal_place_of_business: PrincipalPlaceOfBusiness,
    pub taken_over_business: Option<TakenOverBusiness>,
}

#[derive(Clone, Debug)]
pub enum PrincipalPlaceOfBusiness {
    SameAsRegisteredOffice(bool),
    Address(Address)
}

#[derive(Clone, Debug)]
pub struct Address {
    pub address_line_1: String,
    pub address_line_2: String,
    pub address_line_3: Option<String>,
    pub address_line_4: Option<String>,
    pub post_code: Option<String>,
    pub country: Option<String>,
}

#[derive(Clone, Debug)]
pub struct TakenOverBusiness {
    pub previous_business: PreviousBusiness,
    pub previous_owner: PreviousOwner,
}

#[derive(Clone, Debug)]
pub struct PreviousBusiness {
    pub business_name: String,
    pub business_type: Option<String>,
    pub company_registration_number: Option<String>,
    pub address: Address
}

#[derive(Clone, Debug)]
pub struct PreviousOwner {
    pub owner_name: String,
    pub address: Address
}

} // verus!
