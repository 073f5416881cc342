//! Messages of the service: the election to keep a register at the registry.

use vstd::prelude::*;

verus! {

#[derive(Clone, Copy, Debug, PartialEq, Eq, Structural)]
pub enum ElectOrWithdraw {
    Elect,
    Withdraw,
}

#[derive(Clone, Debug)]
pub struct RegisterElectOrWithdraw {
    pub form_submission: Option<super::form_submission::FormSubmission>,
    pub elect_or_withdraw: Option<ElectOrWithdraw>,
    pub register: Option<super::base_types::Register>,
}

} // verus!
