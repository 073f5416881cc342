//! Messages of the service: a change of the accounting reference date.

use vstd::prelude::*;
use crate::proto::accounting_reference_date::{ChangeToPeriod, ExtensionReason};
use crate::time::Date;

verus! {

#[derive(Clone, Debug)]
pub struct FiveYearExtensionDetails {
    pub extension_reason: Option<ExtensionReason>,
    pub extension_authorization_code: Option<String>,
}

#[derive(Clone, Debug)]
pub struct AccountingReferenceDate {
    pub form_submission: Option<super::form_submission::FormSubmission>,
    pub current_accounting_reference_date: Option<Date>,
    pub change_to_period: Option<ChangeToPeriod>,
    pub new_accounting_reference_date: Option<Date>,
    pub five_year_extension_details: Option<FiveYearExtensionDetails>,
}

} // verus!
