//! On the wire: the register of members as the registry holds it.

use vstd::prelude::*;

verus! {

#[derive(Clone, Debug)]
pub struct MembersDataRequest {
    pub company_number: u32,
    pub company_type: Option<super::base_types::CompanyType>,
    pub company_authentication_code: String,
}

#[derive(Clone, Debug)]
pub struct MembersData {
    pub members: MembersDataMembers,
}

#[derive(Clone, Debug)]
pub struct MembersDataMembers {
    pub members: Vec<MemberType>
}

#[derive(Clone, Debug)]
pub enum MemberType {
    MemberWithShares(MemberWithShares),
    Member(Member),
}

#[derive(Clone, Debug)]
pub struct MemberWithShares {
    pub stocks_or_shares: Vec<super::register::StocksOrSharesHeld>,
    pub name: Vec<super::register::MemberName>,
    pub address: super::base_types::BaseAddress,
    pub date_registered: crate::time::Date,
    pub date_ceased: Option<crate::time::Date>,
}

#[derive(Clone, Debug)]
pub struct Member {
    pub class: String,
    pub name: super::register::MemberName,
    pub address: super::base_types::BaseAddress,
    pub date_registered: crate::time::Date,
    pub date_ceased: Option<crate::time::Date>,
}

} // verus!
