//! On the wire: a change of the accounting reference date.

use vstd::prelude::*;

verus! {

#[derive(Clone, Debug)]
pub struct ChangeAccountingReferenceDate {
    pub accounting_reference_date: crate::time::Date,
    pub change_to_period: ChangeToPeriod,
    pub amended_accounting_reference_date: crate::time::Date,
    pub five_year_extension_details: Option<FiveYearExtensionDetails>,
}

#[derive(Clone, Copy, Debug, PartialEq, Eq, Structural)]
pub enum ChangeToPeriod {
    Shorten,
    Extend,
}

#[derive(Clone, Debug)]
pub struct FiveYearExtensionDetails {
    pub extension_reason: ExtensionReason,
    pub extension_authorised_code: Option<String>,
}

#[derive(Clone, Copy, Debug, PartialEq, Eq, Structural)]
pub enum ExtensionReason {
    Administration,
    SecretaryOfState,
    UKParent
}

} // verus!
