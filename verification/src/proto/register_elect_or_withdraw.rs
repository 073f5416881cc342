//! On the wire: the election to keep a register at the registry.

use vstd::prelude::*;

verus! {

#[derive(Clone, Debug)]
pub struct RegisterElectOrWithdraw {
    pub elect_or_withdraw: ElectOrWithdraw,
    pub register_type: super::base_types::RegisterType,
}

#[derive(Clone, Debug)]
pub enum ElectOrWithdraw {
    Elect(bool),
    Withdraw(bool)
}

} // verus!
