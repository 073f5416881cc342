//! Messages of the service: the election to keep the register of members at the registry.

use vstd::prelude::*;
use crate::time::Date;

verus! {

#[derive(Clone, Debug)]
pub struct MemberWithShares {
    pub shares_or_stock_held: Vec<super::members_data::SharesOrStockHeld>,
    pub name: Vec<super::members_data::MemberName>,
    pub address: Option<super::base_types::BaseAddress>,
    pub date_registered: Option<Date>,
}

#[derive(Clone, Debug)]
pub struct MemberWithoutShares {
    pub member: Option<super::members_data::CompanyMember>,
    pub date_registered: Option<Date>,
}

#[derive(Clone, Debug)]
pub struct MembersWithShares {
    pub members: Vec<MemberWithShares>,
}

#[derive(Clone, Debug)]
pub struct MembersWithoutShares {
    pub members: Vec<MemberWithoutShares>,
}

#[derive(Clone, Debug)]
pub enum ElectMembers {
    MembersWithShares(MembersWithShares),
    MembersWithoutShares(MembersWithoutShares),
}

#[derive(Clone, Debug)]
pub struct ElectToHold {
    pub state_all_members_assented: bool,
    pub members: Option<ElectMembers>,
    pub state_overseas_registers_discontinued: bool,
    pub state_single_member_company: bool,
}

#[derive(Clone, Debug)]
pub enum Elect {
    ElectToHold(ElectToHold),
    WithdrawElectionToHold(bool),
}

#[derive(Clone, Debug)]
pub struct MembersRegisterElectOrWithdraw {
    pub form_submission: Option<super::form_submission::FormSubmission>,
    pub elect: Option<Elect>,
}

} // verus!
