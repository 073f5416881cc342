//! Messages of the service: the address at which records can be inspected.

use vstd::prelude::*;

verus! {

#[derive(Clone, Debug)]
pub struct SailAddress {
    pub form_submission: Option<super::form_submission::FormSubmission>,
    pub address: Option<super::base_types::UkAddress>,
}

} // verus!
