//! On the wire: an update of the register of members.

use vstd::prelude::*;

verus! {

#[derive(Clone, Debug)]
pub struct MembersRegisterUpdate {
    pub members: Members,
    pub single_member: Option<SingleMember>,
}

#[derive(Clone, Debug)]
pub enum SingleMember {
    StateNoLongerSingleMember(bool),
    StateBecomingSingleMember(bool)
}

#[derive(Clone, Debug)]
pub enum Members {
    MembersWithShares(Vec<MemberWithShares>),
    MembersWithoutShares(Vec<MemberWithoutShares>)
}

#[derive(Clone, Debug)]
pub struct MemberWithShares {
    pub new_existing_or_ceased_member: NewExistingOrCeasedMemberWithShares,
    pub transfers: Vec<Transfer>,
    pub allotments: Vec<Allotment>,
    pub name: Vec<super::base_types::CompanyMemberName>,
    pub address: super::base_types::BaseAddress,
}

#[derive(Clone, Debug)]
pub struct Transfer {
    pub share: super::base_types::Shares,
    pub transfer_date: crate::time::Date
}

#[derive(Clone, Debug)]
pub struct Allotment {
    pub share: super::base_types::Shares,
    pub allotment_date: crate::time::Date
}

#[derive(Clone, Debug)]
pub struct MemberWithoutShares {
    pub member: super::base_types::CompanyMember,
    pub new_existing_or_ceased_member: NewExistingOrCeasedMemberWithoutShares
}

#[derive(Clone, Debug)]
pub enum NewExistingOrCeasedMemberWithoutShares {
    NewOrExistingMember(NewOrExistingMember),
    CeasedToBeMember(CeasedToBeMember)
}

#[derive(Clone, Debug)]
pub enum NewExistingOrCeasedMemberWithShares {
    NewOrExistingMember(NewOrExistingMemberWithShares),
    CeasedToBeMember(CeasedToBeMember)
}

#[derive(Clone, Debug)]
pub struct NewOrExistingMemberWithShares {
    pub new_or_existing_member: NewOrExistingMember,
    pub shares_or_stock_held: Vec<super::base_types::StocksOrSharesHeld>
}

#[derive(Clone, Debug)]
pub enum NewOrExistingMember {
    StateNewMember(bool),
    DateRegisteredAsMember(crate::time::Date)
}

#[derive(Clone, Debug)]
pub struct CeasedToBeMember {
    pub date_registered_as_member: crate::time::Date,
    pub ceasation_type: CeasedToBeMemberType
}

#[derive(Clone, Debug)]
pub enum CeasedToBeMemberType {
    StateCeasedToBeMember(bool),
    DateCeasedToBeMember(crate::time::Date)
}

} // verus!
