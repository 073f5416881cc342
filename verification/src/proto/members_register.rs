//! On the wire: the election to keep the register of members at the registry.

use vstd::prelude::*;

verus! {

#[derive(Clone, Debug)]
pub enum MembersRegisterElectOrWithdraw {
    ElectToHold(ElectToHold),
    WithdrawElectionToHold(bool)
}

#[derive(Clone, Debug)]
pub struct ElectToHold {
    pub members: Members,
    pub state_all_members_assented: bool,
    pub state_overseas_registers_discontinued: bool,
    pub state_single_member_company: bool,
}

#[derive(Clone, Debug)]
pub enum Members {
    MembersWithShares(Vec<MemberWithShares>),
    MembersWithoutShares(Vec<MemberWithoutShares>)
}

#[derive(Clone, Debug)]
pub struct MemberWithShares {
    pub shares_or_stock_held: Vec<super::base_types::StocksOrSharesHeld>,
    pub name: Vec<super::base_types::CompanyMemberName>,
    pub address: super::base_types::BaseAddress,
    pub date_registered_as_member: crate::time::Date
}

#[derive(Clone, Debug)]
pub struct MemberWithoutShares {
    pub member: super::base_types::CompanyMember,
    pub date_registered_as_member: crate::time::Date
}

} // verus!
