//! Messages of the service: an update of the register of members.

use vstd::prelude::*;
use crate::time::Date;

verus! {

#[derive(Clone, Debug)]
pub enum CeasedToBeMemberStatus {
    CeasedToBeMember(bool),
    DateCeased(Option<Date>),
}

#[derive(Clone, Debug)]
pub struct CeasedToBeMember {
    pub date_registered: Option<Date>,
    pub status: Option<CeasedToBeMemberStatus>,
}

#[derive(Clone, Debug)]
pub struct Transfer {
    pub share: Option<super::members_data::Share>,
    pub transfer_date: Option<Date>,
}

#[derive(Clone, Debug)]
pub struct Allotment {
    pub share: Option<super::members_data::Share>,
    pub allotment_date: Option<Date>,
}

#[derive(Clone, Debug)]
pub enum NewOrExistingStatus {
    NewMember(bool),
    ExistingMemberDateRegistered(Option<Date>),
}

#[derive(Clone, Debug)]
pub struct NewOrExistingMember {
    pub shares_or_stock_held: Vec<super::members_data::SharesOrStockHeld>,
    pub member_status: Option<NewOrExistingStatus>,
}

#[derive(Clone, Debug)]
pub enum MemberWithSharesStatus {
    NewOrExistingMember(NewOrExistingMember),
    CeasedToBeMember(CeasedToBeMember),
}

#[derive(Clone, Debug)]
pub struct MemberWithShares {
    pub name: Vec<super::members_data::MemberName>,
    pub address: Option<super::base_types::BaseAddress>,
    pub transfers: Vec<Transfer>,
    pub allotments: Vec<Allotment>,
    pub member_status: Option<MemberWithSharesStatus>,
}

#[derive(Clone, Debug)]
pub enum MemberWithoutSharesStatus {
    NewMember(bool),
    ExistingMemberDateRegistered(Option<Date>),
    CeasedToBeMember(CeasedToBeMember),
}

#[derive(Clone, Debug)]
pub struct MemberWithoutShares {
    pub member: Option<super::members_data::CompanyMember>,
    pub member_status: Option<MemberWithoutSharesStatus>,
}

#[derive(Clone, Debug)]
pub struct MembersWithShares {
    pub members: Vec<MemberWithShares>,
}

#[derive(Clone, Debug)]
pub struct MembersWithoutShares {
    pub members: Vec<MemberWithoutShares>,
}

#[derive(Clone, Debug)]
pub enum Members {
    MembersWithShares(MembersWithShares),
    MembersWithoutShares(MembersWithoutShares),
}

#[derive(Clone, Copy, Debug, PartialEq, Eq, Structural)]
pub enum SingleMember {
    NoChange,
    NoLongerSingleMember,
    BecomingSingleMember,
}

#[derive(Clone, Debug)]
pub struct MembersRegisterUpdate {
    pub form_submission: Option<super::form_submission::FormSubmission>,
    pub members: Option<Members>,
    pub single_member: Option<SingleMember>,
}

} // verus!
