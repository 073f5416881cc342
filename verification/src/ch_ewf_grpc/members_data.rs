//! Messages of the service: the register of members as the registry holds it.

use vstd::prelude::*;
use crate::decimal::Decimal;
use crate::time::Date;

verus! {

#[derive(Clone, Debug)]
pub struct MemberPersonName {
    pub forename: String,
    pub surname: String,
}

#[derive(Clone, Debug)]
pub enum MemberNameValue {
    IndividualName(MemberPersonName),
    CorporateName(String),
}

#[derive(Clone, Debug)]
pub struct MemberName {
    pub name: Option<MemberNameValue>,
}

#[derive(Clone, Debug)]
pub struct Share {
    pub num_shares: Decimal,
    pub share_class: String,
    pub share_reference: String,
}

#[derive(Clone, Debug)]
pub struct SharesHeld {
    pub share: Option<Share>,
    pub amount_paid_up: Decimal,
}

#[derive(Clone, Debug)]
pub struct StockHeld {
    pub stock_class: String,
    pub amount_held: Decimal,
    pub currency: String,
}

#[derive(Clone, Debug)]
pub enum SharesOrStock {
    Shares(SharesHeld),
    Stock(StockHeld),
}

#[derive(Clone, Debug)]
pub struct SharesOrStockHeld {
    pub shares_or_stock: Option<SharesOrStock>,
}

#[derive(Clone, Debug)]
pub struct CompanyMember {
    pub class: String,
    pub name: Option<MemberName>,
    pub address: Option<super::base_types::BaseAddress>,
}

#[derive(Clone, Debug)]
pub struct MembersRegisterRequest {
    pub company_number: u32,
    pub company_type: Option<super::base_types::CompanyType>,
    pub authentication_code: String,
}

#[derive(Clone, Debug)]
pub struct MemberWithShares {
    pub name: Vec<MemberName>,
    pub shares_or_stock_held: Vec<SharesOrStockHeld>,
    pub address: Option<super::base_types::BaseAddress>,
    pub date_registered: Option<Date>,
    pub date_ceased: Option<Date>,
}

#[derive(Clone, Debug)]
pub struct MemberWithoutShares {
    pub member: Option<CompanyMember>,
    pub date_registered: Option<Date>,
    pub date_ceased: Option<Date>,
}

#[derive(Clone, Debug)]
pub enum MemberKind {
    MemberWithShares(MemberWithShares),
    MemberWithoutShares(MemberWithoutShares),
}

#[derive(Clone, Debug)]
pub struct Member {
    pub member: Option<MemberKind>,
}

#[derive(Clone, Debug)]
pub struct MembersRegisterResponse {
    pub members: Vec<Member>,
}

} // verus!
