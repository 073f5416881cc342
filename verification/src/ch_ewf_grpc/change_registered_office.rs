//! Messages of the service: a change of the registered office.

use vstd::prelude::*;

verus! {

#[derive(Clone, Debug)]
pub struct ChangeRegisteredOffice {
    pub form_submission: Option<super::form_submission::FormSubmission>,
    pub address: Option<super::base_types::UkAddress>,
}

} // verus!
