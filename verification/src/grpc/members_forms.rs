//! The forms about the register of members and about allotments of
//! shares: how each is checked and put together.

use vstd::prelude::*;
use vstd::string::*;
use crate::ch_ewf_grpc;
use crate::error::ServiceError;
use crate::grpc::submission::FormRequest;
use crate::grpc::CHFillingService;
use crate::proto;
use crate::rules::{
    first_rejection, invalid_argument, lemma_first_rejection, non_empty, optional, optional_ok,
    optional_text, rejected, required_text, text_ok, unless, Checks,
};
use crate::text::{byte_len, len};

verus! {

impl proto::base_types::StocksOrSharesHeld {
    /// `rejection` as a function.
    pub open spec fn rejection_fn() -> spec_fn(ch_ewf_grpc::members_data::SharesOrStockHeld) -> Option<Seq<char>> {
        |value: ch_ewf_grpc::members_data::SharesOrStockHeld| Self::rejection(value)
    }

    /// Whether `list` holds the items of `items`, each as it goes on the wire, in order.
    pub open spec fn are_accepted(list: Seq<Self>, items: Seq<ch_ewf_grpc::members_data::SharesOrStockHeld>) -> bool {
        list.len() == items.len() && forall|i: int|
            0 <= i < list.len() ==> (#[trigger] list[i]).is_accepted(items[i])
    }

    /// Checks the items in order and stops at the first that is refused.
    pub fn try_from_all(
        items: Vec<ch_ewf_grpc::members_data::SharesOrStockHeld>,
    ) -> (r: Result<Vec<Self>, ServiceError>)
        ensures
            match first_rejection(items@, Self::rejection_fn()) {
                Some(message) => rejected(r, message),
                None => r matches Ok(list) && Self::are_accepted(list@, items@),
            },
    {
        let mut list: Vec<Self> = Vec::new();
        let ghost all = items@;
        for item in it: items
            invariant
                it.seq() == all,
                list@.len() == it.index(),
                forall|j: int| 0 <= j < it.index() ==> (Self::rejection_fn())(#[trigger] all[j]) is None,
                forall|j: int| 0 <= j < it.index() ==> (#[trigger] list@[j]).is_accepted(all[j]),
        {
            proof {
                lemma_first_rejection(all, Self::rejection_fn(), it.index() as int);
            }
            let v = Self::try_from(item)?;
            list.push(v);
        }
        proof {
            lemma_first_rejection(all, Self::rejection_fn(), all.len() as int);
        }
        Ok(list)
    }
}

impl proto::base_types::CompanyMemberName {
    /// `rejection` as a function.
    pub open spec fn rejection_fn() -> spec_fn(ch_ewf_grpc::members_data::MemberName) -> Option<Seq<char>> {
        |value: ch_ewf_grpc::members_data::MemberName| Self::rejection(value)
    }

    /// Whether `list` holds the items of `items`, each as it goes on the wire, in order.
    pub open spec fn are_accepted(list: Seq<Self>, items: Seq<ch_ewf_grpc::members_data::MemberName>) -> bool {
        list.len() == items.len() && forall|i: int|
            0 <= i < list.len() ==> (#[trigger] list[i]).is_accepted(items[i])
    }

    /// Checks the items in order and stops at the first that is refused.
    pub fn try_from_all(items: Vec<ch_ewf_grpc::members_data::MemberName>) -> (r: Result<Vec<Self>, ServiceError>)
        ensures
            match first_rejection(items@, Self::rejection_fn()) {
                Some(message) => rejected(r, message),
                None => r matches Ok(list) && Self::are_accepted(list@, items@),
            },
    {
        let mut list: Vec<Self> = Vec::new();
        let ghost all = items@;
        for item in it: items
            invariant
                it.seq() == all,
                list@.len() == it.index(),
                forall|j: int| 0 <= j < it.index() ==> (Self::rejection_fn())(#[trigger] all[j]) is None,
                forall|j: int| 0 <= j < it.index() ==> (#[trigger] list@[j]).is_accepted(all[j]),
        {
            proof {
                lemma_first_rejection(all, Self::rejection_fn(), it.index() as int);
            }
            let v = Self::try_from(item)?;
            list.push(v);
        }
        proof {
            lemma_first_rejection(all, Self::rejection_fn(), all.len() as int);
        }
        Ok(list)
    }
}

impl proto::members_register::MemberWithShares {
    /// Why the member `m` is refused, if it is: for the first check, in order, that it fails.
    pub open spec fn rejection(m: ch_ewf_grpc::members_register::MemberWithShares) -> Option<Seq<char>> {
        unless(m.shares_or_stock_held@.len() != 0, "At least one shares or stock held must be specified"@)
            .otherwise(unless(m.shares_or_stock_held@.len() <= 1000, "Invalid number of shares or stock held"@))
            .otherwise(unless(m.name@.len() != 0, "At least one name must be specified"@))
            .otherwise(unless(m.name@.len() <= 10, "Invalid number of names"@))
            .otherwise(first_rejection(m.shares_or_stock_held@, proto::base_types::StocksOrSharesHeld::rejection_fn()))
            .otherwise(first_rejection(m.name@, proto::base_types::CompanyMemberName::rejection_fn()))
            .otherwise(
                match m.address {
                    Some(address) => proto::base_types::BaseAddress::rejection(address),
                    None => Some("Address required"@),
                },
            )
            .otherwise(unless(m.date_registered is Some, "Date registered as member required"@))
    }

    /// Whether `self` is the member `m` as it goes on the wire.
    pub open spec fn is_accepted(self, m: ch_ewf_grpc::members_register::MemberWithShares) -> bool {
        &&& proto::base_types::StocksOrSharesHeld::are_accepted(self.shares_or_stock_held@, m.shares_or_stock_held@)
        &&& proto::base_types::CompanyMemberName::are_accepted(self.name@, m.name@)
        &&& m.address matches Some(address)
        &&& self.address.is_accepted(address)
        &&& m.date_registered == Some(self.date_registered_as_member)
    }

    pub fn try_from(m: ch_ewf_grpc::members_register::MemberWithShares) -> (r: Result<Self, ServiceError>)
        ensures
            match Self::rejection(m) {
                Some(message) => rejected(r, message),
                None => r matches Ok(v) && v.is_accepted(m),
            },
    {
        if m.shares_or_stock_held.len() == 0 {
            return invalid_argument("At least one shares or stock held must be specified");
        }
        if m.shares_or_stock_held.len() > 1000 {
            return invalid_argument("Invalid number of shares or stock held");
        }
        if m.name.len() == 0 {
            return invalid_argument("At least one name must be specified");
        }
        if m.name.len() > 10 {
            return invalid_argument("Invalid number of names");
        }
        let shares_or_stock_held = proto::base_types::StocksOrSharesHeld::try_from_all(m.shares_or_stock_held)?;
        let name = proto::base_types::CompanyMemberName::try_from_all(m.name)?;
        let address = match m.address {
            Some(address) => proto::base_types::BaseAddress::try_from(address)?,
            None => {
                return invalid_argument("Address required");
            },
        };
        let date_registered_as_member = match m.date_registered {
            Some(d) => d,
            None => {
                return invalid_argument("Date registered as member required");
            },
        };
        Ok(
            proto::members_register::MemberWithShares {
                shares_or_stock_held,
                name,
                address,
                date_registered_as_member,
            },
        )
    }

    /// `rejection` as a function.
    pub open spec fn rejection_fn() -> spec_fn(ch_ewf_grpc::members_register::MemberWithShares) -> Option<Seq<char>> {
        |m: ch_ewf_grpc::members_register::MemberWithShares| Self::rejection(m)
    }

    /// Whether `list` holds the items of `items`, each as it goes on the wire, in order.
    pub open spec fn are_accepted(
        list: Seq<Self>,
        items: Seq<ch_ewf_grpc::members_register::MemberWithShares>,
    ) -> bool {
        list.len() == items.len() && forall|i: int|
            0 <= i < list.len() ==> (#[trigger] list[i]).is_accepted(items[i])
    }

    /// Checks the items in order and stops at the first that is refused.
    pub fn try_from_all(
        items: Vec<ch_ewf_grpc::members_register::MemberWithShares>,
    ) -> (r: Result<Vec<Self>, ServiceError>)
        ensures
            match first_rejection(items@, Self::rejection_fn()) {
                Some(message) => rejected(r, message),
                None => r matches Ok(list) && Self::are_accepted(list@, items@),
            },
    {
        let mut list: Vec<Self> = Vec::new();
        let ghost all = items@;
        for item in it: items
            invariant
                it.seq() == all,
                list@.len() == it.index(),
                forall|j: int| 0 <= j < it.index() ==> (Self::rejection_fn())(#[trigger] all[j]) is None,
                forall|j: int| 0 <= j < it.index() ==> (#[trigger] list@[j]).is_accepted(all[j]),
        {
            proof {
                lemma_first_rejection(all, Self::rejection_fn(), it.index() as int);
            }
            let v = Self::try_from(item)?;
            list.push(v);
        }
        proof {
            lemma_first_rejection(all, Self::rejection_fn(), all.len() as int);
        }
        Ok(list)
    }
}

impl proto::members_register::MemberWithoutShares {
    /// Why the member `m` is refused, if it is: for the first check, in order, that it fails.
    pub open spec fn rejection(m: ch_ewf_grpc::members_register::MemberWithoutShares) -> Option<Seq<char>> {
        (match m.member {
            Some(member) => proto::base_types::CompanyMember::rejection(member),
            None => Some("Member details required"@),
        })
            .otherwise(unless(m.date_registered is Some, "Date registered as member required"@))
    }

    /// Whether `self` is the member `m` as it goes on the wire.
    pub open spec fn is_accepted(self, m: ch_ewf_grpc::members_register::MemberWithoutShares) -> bool {
        &&& m.member matches Some(member)
        &&& self.member.is_accepted(member)
        &&& m.date_registered == Some(self.date_registered_as_member)
    }

    pub fn try_from(m: ch_ewf_grpc::members_register::MemberWithoutShares) -> (r: Result<Self, ServiceError>)
        ensures
            match Self::rejection(m) {
                Some(message) => rejected(r, message),
                None => r matches Ok(v) && v.is_accepted(m),
            },
    {
        let member = match m.member {
            Some(member) => proto::base_types::CompanyMember::try_from(member)?,
            None => {
                return invalid_argument("Member details required");
            },
        };
        let date_registered_as_member = match m.date_registered {
            Some(d) => d,
            None => {
                return invalid_argument("Date registered as member required");
            },
        };
        Ok(
            proto::members_register::MemberWithoutShares {
                member,
                date_registered_as_member,
            },
        )
    }

    /// `rejection` as a function.
    pub open spec fn rejection_fn() -> spec_fn(ch_ewf_grpc::members_register::MemberWithoutShares) -> Option<Seq<char>> {
        |m: ch_ewf_grpc::members_register::MemberWithoutShares| Self::rejection(m)
    }

    /// Whether `list` holds the items of `items`, each as it goes on the wire, in order.
    pub open spec fn are_accepted(
        list: Seq<Self>,
        items: Seq<ch_ewf_grpc::members_register::MemberWithoutShares>,
    ) -> bool {
        list.len() == items.len() && forall|i: int|
            0 <= i < list.len() ==> (#[trigger] list[i]).is_accepted(items[i])
    }

    /// Checks the items in order and stops at the first that is refused.
    pub fn try_from_all(
        items: Vec<ch_ewf_grpc::members_register::MemberWithoutShares>,
    ) -> (r: Result<Vec<Self>, ServiceError>)
        ensures
            match first_rejection(items@, Self::rejection_fn()) {
                Some(message) => rejected(r, message),
                None => r matches Ok(list) && Self::are_accepted(list@, items@),
            },
    {
        let mut list: Vec<Self> = Vec::new();
        let ghost all = items@;
        for item in it: items
            invariant
                it.seq() == all,
                list@.len() == it.index(),
                forall|j: int| 0 <= j < it.index() ==> (Self::rejection_fn())(#[trigger] all[j]) is None,
                forall|j: int| 0 <= j < it.index() ==> (#[trigger] list@[j]).is_accepted(all[j]),
        {
            proof {
                lemma_first_rejection(all, Self::rejection_fn(), it.index() as int);
            }
            let v = Self::try_from(item)?;
            list.push(v);
        }
        proof {
            lemma_first_rejection(all, Self::rejection_fn(), all.len() as int);
        }
        Ok(list)
    }
}

impl proto::members_register::Members {
    /// Why the members `members` is refused, if it is: it holds none of its kinds, or the one it holds is refused.
    pub open spec fn rejection(members: Option<ch_ewf_grpc::members_register::ElectMembers>) -> Option<Seq<char>> {
        match members {
            Some(ch_ewf_grpc::members_register::ElectMembers::MembersWithShares(m)) => unless(m.members@.len() != 0, "At least one member must be specified"@).otherwise(
                first_rejection(m.members@, proto::members_register::MemberWithShares::rejection_fn()),
            ),
            Some(ch_ewf_grpc::members_register::ElectMembers::MembersWithoutShares(m)) => unless(m.members@.len() != 0, "At least one member must be specified"@).otherwise(
                first_rejection(m.members@, proto::members_register::MemberWithoutShares::rejection_fn()),
            ),
            None => Some("One of members with or without shares must be specified"@),
        }
    }

    /// Whether `self` is the members `members` as it goes on the wire.
    pub open spec fn is_accepted(self, members: Option<ch_ewf_grpc::members_register::ElectMembers>) -> bool {
        match members {
            Some(ch_ewf_grpc::members_register::ElectMembers::MembersWithShares(m)) => {
                self matches proto::members_register::Members::MembersWithShares(list) && proto::members_register::MemberWithShares::are_accepted(list@, m.members@)
            },
            Some(ch_ewf_grpc::members_register::ElectMembers::MembersWithoutShares(m)) => {
                self matches proto::members_register::Members::MembersWithoutShares(list) && proto::members_register::MemberWithoutShares::are_accepted(list@, m.members@)
            },
            None => false,
        }
    }

    pub fn try_from(members: Option<ch_ewf_grpc::members_register::ElectMembers>) -> (r: Result<Self, ServiceError>)
        ensures
            match Self::rejection(members) {
                Some(message) => rejected(r, message),
                None => r matches Ok(v) && v.is_accepted(members),
            },
    {
        match members {
            Some(ch_ewf_grpc::members_register::ElectMembers::MembersWithShares(m)) => {
                if m.members.len() == 0 {
                    return invalid_argument("At least one member must be specified");
                }
                Ok(
                    proto::members_register::Members::MembersWithShares(
                        proto::members_register::MemberWithShares::try_from_all(m.members)?,
                    ),
                )
            },
            Some(ch_ewf_grpc::members_register::ElectMembers::MembersWithoutShares(m)) => {
                if m.members.len() == 0 {
                    return invalid_argument("At least one member must be specified");
                }
                Ok(
                    proto::members_register::Members::MembersWithoutShares(
                        proto::members_register::MemberWithoutShares::try_from_all(m.members)?,
                    ),
                )
            },
            None => invalid_argument("One of members with or without shares must be specified"),
        }
    }
}

impl proto::members_register::ElectToHold {
    /// Why the election `e` is refused, if it is: for the first check, in order, that it fails.
    pub open spec fn rejection(e: ch_ewf_grpc::members_register::ElectToHold) -> Option<Seq<char>> {
        unless(e.state_all_members_assented, "All members must assent"@)
            .otherwise(proto::members_register::Members::rejection(e.members))
    }

    /// Whether `self` is the election `e` as it goes on the wire.
    pub open spec fn is_accepted(self, e: ch_ewf_grpc::members_register::ElectToHold) -> bool {
        &&& self.state_all_members_assented
        &&& self.members.is_accepted(e.members)
        &&& self.state_overseas_registers_discontinued == e.state_overseas_registers_discontinued
        &&& self.state_single_member_company == e.state_single_member_company
    }

    pub fn try_from(e: ch_ewf_grpc::members_register::ElectToHold) -> (r: Result<Self, ServiceError>)
        ensures
            match Self::rejection(e) {
                Some(message) => rejected(r, message),
                None => r matches Ok(v) && v.is_accepted(e),
            },
    {
        if !e.state_all_members_assented {
            return invalid_argument("All members must assent");
        }
        let members = proto::members_register::Members::try_from(e.members)?;
        Ok(
            proto::members_register::ElectToHold {
                state_all_members_assented: true,
                members,
                state_overseas_registers_discontinued: e.state_overseas_registers_discontinued,
                state_single_member_company: e.state_single_member_company,
            },
        )
    }
}

impl proto::members_register::MembersRegisterElectOrWithdraw {
    /// Why the form `msg` is refused, if it is: it holds none of its kinds, or the one it holds is refused.
    pub open spec fn rejection(
        msg: ch_ewf_grpc::members_register::MembersRegisterElectOrWithdraw,
    ) -> Option<Seq<char>> {
        match msg.elect {
            Some(ch_ewf_grpc::members_register::Elect::ElectToHold(e)) => {
                proto::members_register::ElectToHold::rejection(e)
            },
            Some(ch_ewf_grpc::members_register::Elect::WithdrawElectionToHold(w)) => {
                unless(w, "Withdraw election to hold must be true"@)
            },
            None => Some("One of elect or withdraw must be specified"@),
        }
    }

    /// Whether `self` is the form `msg` as it goes on the wire.
    pub open spec fn is_accepted(self, msg: ch_ewf_grpc::members_register::MembersRegisterElectOrWithdraw) -> bool {
        match msg.elect {
            Some(ch_ewf_grpc::members_register::Elect::ElectToHold(e)) => {
                self matches proto::members_register::MembersRegisterElectOrWithdraw::ElectToHold(got) && got.is_accepted(e)
            },
            Some(ch_ewf_grpc::members_register::Elect::WithdrawElectionToHold(w)) => {
                self == proto::members_register::MembersRegisterElectOrWithdraw::WithdrawElectionToHold(true)
            },
            None => false,
        }
    }

    pub fn try_from(
        msg: ch_ewf_grpc::members_register::MembersRegisterElectOrWithdraw,
    ) -> (r: Result<Self, ServiceError>)
        ensures
            match Self::rejection(msg) {
                Some(message) => rejected(r, message),
                None => r matches Ok(v) && v.is_accepted(msg),
            },
    {
        match msg.elect {
            Some(ch_ewf_grpc::members_register::Elect::ElectToHold(e)) => {
                Ok(
                    proto::members_register::MembersRegisterElectOrWithdraw::ElectToHold(
                        proto::members_register::ElectToHold::try_from(e)?,
                    ),
                )
            },
            Some(ch_ewf_grpc::members_register::Elect::WithdrawElectionToHold(w)) => {
                if !w {
                    return invalid_argument("Withdraw election to hold must be true");
                }
                Ok(proto::members_register::MembersRegisterElectOrWithdraw::WithdrawElectionToHold(true))
            },
            None => invalid_argument("One of elect or withdraw must be specified"),
        }
    }
}

impl CHFillingService {
    /// Checks an election to keep the register of members at the registry, or its withdrawal and
    /// puts the form together.
    pub fn members_register_elect_or_withdraw(
        msg: ch_ewf_grpc::members_register::MembersRegisterElectOrWithdraw,
    ) -> (r: Result<FormRequest, ServiceError>)
        ensures
            match proto::members_register::MembersRegisterElectOrWithdraw::rejection(msg) {
                Some(message) => rejected(r, message),
                None => {
                    &&& r matches Ok(request)
                    &&& request.is_for(msg.form_submission, "MembersRegisterElectOrWithdraw"@, "MembersRegisterElectOrWithdraw"@)
                    &&& request.form matches proto::form_submission::Form::MembersRegisterElectOrWithdraw(form)
                    &&& form.is_accepted(msg)
                },
            },
    {
        let mut msg = msg;
        let form_submission = msg.form_submission.take();
        let form = proto::members_register::MembersRegisterElectOrWithdraw::try_from(msg)?;
        Ok(
            FormRequest {
                form_submission,
                submission_class: "MembersRegisterElectOrWithdraw".to_owned(),
                form_type: "MembersRegisterElectOrWithdraw".to_owned(),
                form: proto::form_submission::Form::MembersRegisterElectOrWithdraw(form),
                documents: Vec::new(),
            },
        )
    }
}

impl proto::members_register_update::Transfer {
    /// Why the transfer `t` is refused, if it is: for the first check, in order, that it fails.
    pub open spec fn rejection(t: ch_ewf_grpc::members_register_update::Transfer) -> Option<Seq<char>> {
        (match t.share {
            Some(share) => proto::base_types::Shares::rejection(share),
            None => Some("Share required"@),
        })
            .otherwise(unless(t.transfer_date is Some, "Transfer date required"@))
    }

    /// Whether `self` is the transfer `t` as it goes on the wire.
    pub open spec fn is_accepted(self, t: ch_ewf_grpc::members_register_update::Transfer) -> bool {
        &&& t.share matches Some(share)
        &&& self.share.is_accepted(share)
        &&& t.transfer_date == Some(self.transfer_date)
    }

    pub fn try_from(t: ch_ewf_grpc::members_register_update::Transfer) -> (r: Result<Self, ServiceError>)
        ensures
            match Self::rejection(t) {
                Some(message) => rejected(r, message),
                None => r matches Ok(v) && v.is_accepted(t),
            },
    {
        let share = match t.share {
            Some(share) => proto::base_types::Shares::try_from(share)?,
            None => {
                return invalid_argument("Share required");
            },
        };
        let transfer_date = match t.transfer_date {
            Some(d) => d,
            None => {
                return invalid_argument("Transfer date required");
            },
        };
        Ok(
            proto::members_register_update::Transfer {
                share,
                transfer_date,
            },
        )
    }

    /// `rejection` as a function.
    pub open spec fn rejection_fn() -> spec_fn(ch_ewf_grpc::members_register_update::Transfer) -> Option<Seq<char>> {
        |t: ch_ewf_grpc::members_register_update::Transfer| Self::rejection(t)
    }

    /// Whether `list` holds the items of `items`, each as it goes on the wire, in order.
    pub open spec fn are_accepted(list: Seq<Self>, items: Seq<ch_ewf_grpc::members_register_update::Transfer>) -> bool {
        list.len() == items.len() && forall|i: int|
            0 <= i < list.len() ==> (#[trigger] list[i]).is_accepted(items[i])
    }

    /// Checks the items in order and stops at the first that is refused.
    pub fn try_from_all(
        items: Vec<ch_ewf_grpc::members_register_update::Transfer>,
    ) -> (r: Result<Vec<Self>, ServiceError>)
        ensures
            match first_rejection(items@, Self::rejection_fn()) {
                Some(message) => rejected(r, message),
                None => r matches Ok(list) && Self::are_accepted(list@, items@),
            },
    {
        let mut list: Vec<Self> = Vec::new();
        let ghost all = items@;
        for item in it: items
            invariant
                it.seq() == all,
                list@.len() == it.index(),
                forall|j: int| 0 <= j < it.index() ==> (Self::rejection_fn())(#[trigger] all[j]) is None,
                forall|j: int| 0 <= j < it.index() ==> (#[trigger] list@[j]).is_accepted(all[j]),
        {
            proof {
                lemma_first_rejection(all, Self::rejection_fn(), it.index() as int);
            }
            let v = Self::try_from(item)?;
            list.push(v);
        }
        proof {
            lemma_first_rejection(all, Self::rejection_fn(), all.len() as int);
        }
        Ok(list)
    }
}

impl proto::members_register_update::Allotment {
    /// Why the allotment `a` is refused, if it is: for the first check, in order, that it fails.
    pub open spec fn rejection(a: ch_ewf_grpc::members_register_update::Allotment) -> Option<Seq<char>> {
        (match a.share {
            Some(share) => proto::base_types::Shares::rejection(share),
            None => Some("Share required"@),
        })
            .otherwise(unless(a.allotment_date is Some, "Allotment date required"@))
    }

    /// Whether `self` is the allotment `a` as it goes on the wire.
    pub open spec fn is_accepted(self, a: ch_ewf_grpc::members_register_update::Allotment) -> bool {
        &&& a.share matches Some(share)
        &&& self.share.is_accepted(share)
        &&& a.allotment_date == Some(self.allotment_date)
    }

    pub fn try_from(a: ch_ewf_grpc::members_register_update::Allotment) -> (r: Result<Self, ServiceError>)
        ensures
            match Self::rejection(a) {
                Some(message) => rejected(r, message),
                None => r matches Ok(v) && v.is_accepted(a),
            },
    {
        let share = match a.share {
            Some(share) => proto::base_types::Shares::try_from(share)?,
            None => {
                return invalid_argument("Share required");
            },
        };
        let allotment_date = match a.allotment_date {
            Some(d) => d,
            None => {
                return invalid_argument("Allotment date required");
            },
        };
        Ok(
            proto::members_register_update::Allotment {
                share,
                allotment_date,
            },
        )
    }

    /// `rejection` as a function.
    pub open spec fn rejection_fn() -> spec_fn(ch_ewf_grpc::members_register_update::Allotment) -> Option<Seq<char>> {
        |a: ch_ewf_grpc::members_register_update::Allotment| Self::rejection(a)
    }

    /// Whether `list` holds the items of `items`, each as it goes on the wire, in order.
    pub open spec fn are_accepted(
        list: Seq<Self>,
        items: Seq<ch_ewf_grpc::members_register_update::Allotment>,
    ) -> bool {
        list.len() == items.len() && forall|i: int|
            0 <= i < list.len() ==> (#[trigger] list[i]).is_accepted(items[i])
    }

    /// Checks the items in order and stops at the first that is refused.
    pub fn try_from_all(
        items: Vec<ch_ewf_grpc::members_register_update::Allotment>,
    ) -> (r: Result<Vec<Self>, ServiceError>)
        ensures
            match first_rejection(items@, Self::rejection_fn()) {
                Some(message) => rejected(r, message),
                None => r matches Ok(list) && Self::are_accepted(list@, items@),
            },
    {
        let mut list: Vec<Self> = Vec::new();
        let ghost all = items@;
        for item in it: items
            invariant
                it.seq() == all,
                list@.len() == it.index(),
                forall|j: int| 0 <= j < it.index() ==> (Self::rejection_fn())(#[trigger] all[j]) is None,
                forall|j: int| 0 <= j < it.index() ==> (#[trigger] list@[j]).is_accepted(all[j]),
        {
            proof {
                lemma_first_rejection(all, Self::rejection_fn(), it.index() as int);
            }
            let v = Self::try_from(item)?;
            list.push(v);
        }
        proof {
            lemma_first_rejection(all, Self::rejection_fn(), all.len() as int);
        }
        Ok(list)
    }
}

impl proto::members_register_update::NewOrExistingMember {
    /// Why the standing of the member `status` is refused, if it is: it holds none of its kinds, or
    /// the one it holds is refused.
    pub open spec fn rejection(
        status: Option<ch_ewf_grpc::members_register_update::NewOrExistingStatus>,
    ) -> Option<Seq<char>> {
        match status {
            Some(ch_ewf_grpc::members_register_update::NewOrExistingStatus::NewMember(n)) => {
                unless(n, "New member must be true"@)
            },
            Some(ch_ewf_grpc::members_register_update::NewOrExistingStatus::ExistingMemberDateRegistered(d)) => {
                unless(d is Some, "Date registered as member required"@)
            },
            None => Some("New or existing member required"@),
        }
    }

    /// Whether `self` is the standing of the member `status` as it goes on the wire.
    pub open spec fn is_accepted(
        self,
        status: Option<ch_ewf_grpc::members_register_update::NewOrExistingStatus>,
    ) -> bool {
        match status {
            Some(ch_ewf_grpc::members_register_update::NewOrExistingStatus::NewMember(n)) => {
                self == proto::members_register_update::NewOrExistingMember::StateNewMember(true)
            },
            Some(ch_ewf_grpc::members_register_update::NewOrExistingStatus::ExistingMemberDateRegistered(d)) => {
                d matches Some(date) && self == proto::members_register_update::NewOrExistingMember::DateRegisteredAsMember(date)
            },
            None => false,
        }
    }

    pub fn try_from(
        status: Option<ch_ewf_grpc::members_register_update::NewOrExistingStatus>,
    ) -> (r: Result<Self, ServiceError>)
        ensures
            match Self::rejection(status) {
                Some(message) => rejected(r, message),
                None => r matches Ok(v) && v.is_accepted(status),
            },
    {
        match status {
            Some(ch_ewf_grpc::members_register_update::NewOrExistingStatus::NewMember(n)) => {
                if !n {
                    return invalid_argument("New member must be true");
                }
                Ok(proto::members_register_update::NewOrExistingMember::StateNewMember(true))
            },
            Some(ch_ewf_grpc::members_register_update::NewOrExistingStatus::ExistingMemberDateRegistered(d)) => match d {
                Some(date) => Ok(proto::members_register_update::NewOrExistingMember::DateRegisteredAsMember(date)),
                None => invalid_argument("Date registered as member required"),
            },
            None => invalid_argument("New or existing member required"),
        }
    }
}

impl proto::members_register_update::NewOrExistingMemberWithShares {
    /// Why the new or existing member `n` is refused, if it is: for the first check, in order, that it fails.
    pub open spec fn rejection(n: ch_ewf_grpc::members_register_update::NewOrExistingMember) -> Option<Seq<char>> {
        unless(n.shares_or_stock_held@.len() != 0, "At least one shares or stock held must be specified"@)
            .otherwise(unless(n.shares_or_stock_held@.len() <= 1000, "Invalid number of shares or stock held"@))
            .otherwise(proto::members_register_update::NewOrExistingMember::rejection(n.member_status))
            .otherwise(first_rejection(n.shares_or_stock_held@, proto::base_types::StocksOrSharesHeld::rejection_fn()))
    }

    /// Whether `self` is the new or existing member `n` as it goes on the wire.
    pub open spec fn is_accepted(self, n: ch_ewf_grpc::members_register_update::NewOrExistingMember) -> bool {
        &&& self.new_or_existing_member.is_accepted(n.member_status)
        &&& proto::base_types::StocksOrSharesHeld::are_accepted(self.shares_or_stock_held@, n.shares_or_stock_held@)
    }

    pub fn try_from(n: ch_ewf_grpc::members_register_update::NewOrExistingMember) -> (r: Result<Self, ServiceError>)
        ensures
            match Self::rejection(n) {
                Some(message) => rejected(r, message),
                None => r matches Ok(v) && v.is_accepted(n),
            },
    {
        if n.shares_or_stock_held.len() == 0 {
            return invalid_argument("At least one shares or stock held must be specified");
        }
        if n.shares_or_stock_held.len() > 1000 {
            return invalid_argument("Invalid number of shares or stock held");
        }
        let new_or_existing_member = proto::members_register_update::NewOrExistingMember::try_from(n.member_status)?;
        let shares_or_stock_held = proto::base_types::StocksOrSharesHeld::try_from_all(n.shares_or_stock_held)?;
        Ok(
            proto::members_register_update::NewOrExistingMemberWithShares {
                new_or_existing_member,
                shares_or_stock_held,
            },
        )
    }
}

impl proto::members_register_update::NewExistingOrCeasedMemberWithShares {
    /// Why the standing of the member `status` is refused, if it is: it holds none of its kinds, or
    /// the one it holds is refused.
    pub open spec fn rejection(
        status: Option<ch_ewf_grpc::members_register_update::MemberWithSharesStatus>,
    ) -> Option<Seq<char>> {
        match status {
            Some(ch_ewf_grpc::members_register_update::MemberWithSharesStatus::NewOrExistingMember(n)) => {
                proto::members_register_update::NewOrExistingMemberWithShares::rejection(n)
            },
            Some(ch_ewf_grpc::members_register_update::MemberWithSharesStatus::CeasedToBeMember(c)) => {
                proto::members_register_update::CeasedToBeMember::rejection(c)
            },
            None => Some("Member status required"@),
        }
    }

    /// Whether `self` is the standing of the member `status` as it goes on the wire.
    pub open spec fn is_accepted(
        self,
        status: Option<ch_ewf_grpc::members_register_update::MemberWithSharesStatus>,
    ) -> bool {
        match status {
            Some(ch_ewf_grpc::members_register_update::MemberWithSharesStatus::NewOrExistingMember(n)) => {
                self matches proto::members_register_update::NewExistingOrCeasedMemberWithShares::NewOrExistingMember(got) && got.is_accepted(n)
            },
            Some(ch_ewf_grpc::members_register_update::MemberWithSharesStatus::CeasedToBeMember(c)) => {
                self matches proto::members_register_update::NewExistingOrCeasedMemberWithShares::CeasedToBeMember(got) && got.is_accepted(c)
            },
            None => false,
        }
    }

    pub fn try_from(
        status: Option<ch_ewf_grpc::members_register_update::MemberWithSharesStatus>,
    ) -> (r: Result<Self, ServiceError>)
        ensures
            match Self::rejection(status) {
                Some(message) => rejected(r, message),
                None => r matches Ok(v) && v.is_accepted(status),
            },
    {
        match status {
            Some(ch_ewf_grpc::members_register_update::MemberWithSharesStatus::NewOrExistingMember(n)) => {
                Ok(
                    proto::members_register_update::NewExistingOrCeasedMemberWithShares::NewOrExistingMember(
                        proto::members_register_update::NewOrExistingMemberWithShares::try_from(n)?,
                    ),
                )
            },
            Some(ch_ewf_grpc::members_register_update::MemberWithSharesStatus::CeasedToBeMember(c)) => {
                Ok(
                    proto::members_register_update::NewExistingOrCeasedMemberWithShares::CeasedToBeMember(
                        proto::members_register_update::CeasedToBeMember::try_from(c)?,
                    ),
                )
            },
            None => invalid_argument("Member status required"),
        }
    }
}

impl proto::members_register_update::MemberWithShares {
    /// Why the member `m` is refused, if it is: for the first check, in order, that it fails.
    pub open spec fn rejection(m: ch_ewf_grpc::members_register_update::MemberWithShares) -> Option<Seq<char>> {
        unless(m.name@.len() != 0, "At least one name must be specified"@)
            .otherwise(unless(m.name@.len() <= 10, "Invalid number of names"@))
            .otherwise(first_rejection(m.name@, proto::base_types::CompanyMemberName::rejection_fn()))
            .otherwise(
                match m.address {
                    Some(address) => proto::base_types::BaseAddress::rejection(address),
                    None => Some("Address required"@),
                },
            )
            .otherwise(first_rejection(m.transfers@, proto::members_register_update::Transfer::rejection_fn()))
            .otherwise(first_rejection(m.allotments@, proto::members_register_update::Allotment::rejection_fn()))
            .otherwise(proto::members_register_update::NewExistingOrCeasedMemberWithShares::rejection(m.member_status))
    }

    /// Whether `self` is the member `m` as it goes on the wire.
    pub open spec fn is_accepted(self, m: ch_ewf_grpc::members_register_update::MemberWithShares) -> bool {
        &&& proto::base_types::CompanyMemberName::are_accepted(self.name@, m.name@)
        &&& m.address matches Some(address)
        &&& self.address.is_accepted(address)
        &&& proto::members_register_update::Transfer::are_accepted(self.transfers@, m.transfers@)
        &&& proto::members_register_update::Allotment::are_accepted(self.allotments@, m.allotments@)
        &&& self.new_existing_or_ceased_member.is_accepted(m.member_status)
    }

    pub fn try_from(m: ch_ewf_grpc::members_register_update::MemberWithShares) -> (r: Result<Self, ServiceError>)
        ensures
            match Self::rejection(m) {
                Some(message) => rejected(r, message),
                None => r matches Ok(v) && v.is_accepted(m),
            },
    {
        if m.name.len() == 0 {
            return invalid_argument("At least one name must be specified");
        }
        if m.name.len() > 10 {
            return invalid_argument("Invalid number of names");
        }
        let name = proto::base_types::CompanyMemberName::try_from_all(m.name)?;
        let address = match m.address {
            Some(address) => proto::base_types::BaseAddress::try_from(address)?,
            None => {
                return invalid_argument("Address required");
            },
        };
        let transfers = proto::members_register_update::Transfer::try_from_all(m.transfers)?;
        let allotments = proto::members_register_update::Allotment::try_from_all(m.allotments)?;
        let new_existing_or_ceased_member = proto::members_register_update::NewExistingOrCeasedMemberWithShares::try_from(
            m.member_status,
        )?;
        Ok(
            proto::members_register_update::MemberWithShares {
                name,
                address,
                transfers,
                allotments,
                new_existing_or_ceased_member,
            },
        )
    }

    /// `rejection` as a function.
    pub open spec fn rejection_fn() -> spec_fn(ch_ewf_grpc::members_register_update::MemberWithShares) -> Option<Seq<char>> {
        |m: ch_ewf_grpc::members_register_update::MemberWithShares| Self::rejection(m)
    }

    /// Whether `list` holds the items of `items`, each as it goes on the wire, in order.
    pub open spec fn are_accepted(
        list: Seq<Self>,
        items: Seq<ch_ewf_grpc::members_register_update::MemberWithShares>,
    ) -> bool {
        list.len() == items.len() && forall|i: int|
            0 <= i < list.len() ==> (#[trigger] list[i]).is_accepted(items[i])
    }

    /// Checks the items in order and stops at the first that is refused.
    pub fn try_from_all(
        items: Vec<ch_ewf_grpc::members_register_update::MemberWithShares>,
    ) -> (r: Result<Vec<Self>, ServiceError>)
        ensures
            match first_rejection(items@, Self::rejection_fn()) {
                Some(message) => rejected(r, message),
                None => r matches Ok(list) && Self::are_accepted(list@, items@),
            },
    {
        let mut list: Vec<Self> = Vec::new();
        let ghost all = items@;
        for item in it: items
            invariant
                it.seq() == all,
                list@.len() == it.index(),
                forall|j: int| 0 <= j < it.index() ==> (Self::rejection_fn())(#[trigger] all[j]) is None,
                forall|j: int| 0 <= j < it.index() ==> (#[trigger] list@[j]).is_accepted(all[j]),
        {
            proof {
                lemma_first_rejection(all, Self::rejection_fn(), it.index() as int);
            }
            let v = Self::try_from(item)?;
            list.push(v);
        }
        proof {
            lemma_first_rejection(all, Self::rejection_fn(), all.len() as int);
        }
        Ok(list)
    }
}

impl proto::members_register_update::NewExistingOrCeasedMemberWithoutShares {
    /// Why the standing of the member `status` is refused, if it is: it holds none of its kinds, or
    /// the one it holds is refused.
    pub open spec fn rejection(
        status: Option<ch_ewf_grpc::members_register_update::MemberWithoutSharesStatus>,
    ) -> Option<Seq<char>> {
        match status {
            Some(ch_ewf_grpc::members_register_update::MemberWithoutSharesStatus::NewMember(n)) => {
                unless(n, "New member must be true"@)
            },
            Some(ch_ewf_grpc::members_register_update::MemberWithoutSharesStatus::ExistingMemberDateRegistered(d)) => {
                unless(d is Some, "Date registered as member required"@)
            },
            Some(ch_ewf_grpc::members_register_update::MemberWithoutSharesStatus::CeasedToBeMember(c)) => {
                proto::members_register_update::CeasedToBeMember::rejection(c)
            },
            None => Some("New, existing, or ceased required"@),
        }
    }

    /// Whether `self` is the standing of the member `status` as it goes on the wire.
    pub open spec fn is_accepted(
        self,
        status: Option<ch_ewf_grpc::members_register_update::MemberWithoutSharesStatus>,
    ) -> bool {
        match status {
            Some(ch_ewf_grpc::members_register_update::MemberWithoutSharesStatus::NewMember(n)) => self == proto::members_register_update::NewExistingOrCeasedMemberWithoutShares::NewOrExistingMember(
                proto::members_register_update::NewOrExistingMember::StateNewMember(true),
            ),
            Some(ch_ewf_grpc::members_register_update::MemberWithoutSharesStatus::ExistingMemberDateRegistered(d)) => {
                &&& d matches Some(date)
                &&& self == proto::members_register_update::NewExistingOrCeasedMemberWithoutShares::NewOrExistingMember(
                    proto::members_register_update::NewOrExistingMember::DateRegisteredAsMember(date),
                )
            },
            Some(ch_ewf_grpc::members_register_update::MemberWithoutSharesStatus::CeasedToBeMember(c)) => {
                self matches proto::members_register_update::NewExistingOrCeasedMemberWithoutShares::CeasedToBeMember(got) && got.is_accepted(c)
            },
            None => false,
        }
    }

    pub fn try_from(
        status: Option<ch_ewf_grpc::members_register_update::MemberWithoutSharesStatus>,
    ) -> (r: Result<Self, ServiceError>)
        ensures
            match Self::rejection(status) {
                Some(message) => rejected(r, message),
                None => r matches Ok(v) && v.is_accepted(status),
            },
    {
        match status {
            Some(ch_ewf_grpc::members_register_update::MemberWithoutSharesStatus::NewMember(n)) => {
                if !n {
                    return invalid_argument("New member must be true");
                }
                Ok(
                    proto::members_register_update::NewExistingOrCeasedMemberWithoutShares::NewOrExistingMember(
                        proto::members_register_update::NewOrExistingMember::StateNewMember(true),
                    ),
                )
            },
            Some(ch_ewf_grpc::members_register_update::MemberWithoutSharesStatus::ExistingMemberDateRegistered(d)) => match d {
                Some(date) => Ok(
                    proto::members_register_update::NewExistingOrCeasedMemberWithoutShares::NewOrExistingMember(
                        proto::members_register_update::NewOrExistingMember::DateRegisteredAsMember(date),
                    ),
                ),
                None => invalid_argument("Date registered as member required"),
            },
            Some(ch_ewf_grpc::members_register_update::MemberWithoutSharesStatus::CeasedToBeMember(c)) => {
                Ok(
                    proto::members_register_update::NewExistingOrCeasedMemberWithoutShares::CeasedToBeMember(
                        proto::members_register_update::CeasedToBeMember::try_from(c)?,
                    ),
                )
            },
            None => invalid_argument("New, existing, or ceased required"),
        }
    }
}

impl proto::members_register_update::MemberWithoutShares {
    /// Why the member `m` is refused, if it is: for the first check, in order, that it fails.
    pub open spec fn rejection(m: ch_ewf_grpc::members_register_update::MemberWithoutShares) -> Option<Seq<char>> {
        (match m.member {
            Some(member) => proto::base_types::CompanyMember::rejection(member),
            None => Some("Member details required"@),
        })
            .otherwise(proto::members_register_update::NewExistingOrCeasedMemberWithoutShares::rejection(m.member_status))
    }

    /// Whether `self` is the member `m` as it goes on the wire.
    pub open spec fn is_accepted(self, m: ch_ewf_grpc::members_register_update::MemberWithoutShares) -> bool {
        &&& m.member matches Some(member)
        &&& self.member.is_accepted(member)
        &&& self.new_existing_or_ceased_member.is_accepted(m.member_status)
    }

    pub fn try_from(m: ch_ewf_grpc::members_register_update::MemberWithoutShares) -> (r: Result<Self, ServiceError>)
        ensures
            match Self::rejection(m) {
                Some(message) => rejected(r, message),
                None => r matches Ok(v) && v.is_accepted(m),
            },
    {
        let member = match m.member {
            Some(member) => proto::base_types::CompanyMember::try_from(member)?,
            None => {
                return invalid_argument("Member details required");
            },
        };
        let new_existing_or_ceased_member = proto::members_register_update::NewExistingOrCeasedMemberWithoutShares::try_from(
            m.member_status,
        )?;
        Ok(
            proto::members_register_update::MemberWithoutShares {
                member,
                new_existing_or_ceased_member,
            },
        )
    }

    /// `rejection` as a function.
    pub open spec fn rejection_fn() -> spec_fn(ch_ewf_grpc::members_register_update::MemberWithoutShares) -> Option<Seq<char>> {
        |m: ch_ewf_grpc::members_register_update::MemberWithoutShares| Self::rejection(m)
    }

    /// Whether `list` holds the items of `items`, each as it goes on the wire, in order.
    pub open spec fn are_accepted(
        list: Seq<Self>,
        items: Seq<ch_ewf_grpc::members_register_update::MemberWithoutShares>,
    ) -> bool {
        list.len() == items.len() && forall|i: int|
            0 <= i < list.len() ==> (#[trigger] list[i]).is_accepted(items[i])
    }

    /// Checks the items in order and stops at the first that is refused.
    pub fn try_from_all(
        items: Vec<ch_ewf_grpc::members_register_update::MemberWithoutShares>,
    ) -> (r: Result<Vec<Self>, ServiceError>)
        ensures
            match first_rejection(items@, Self::rejection_fn()) {
                Some(message) => rejected(r, message),
                None => r matches Ok(list) && Self::are_accepted(list@, items@),
            },
    {
        let mut list: Vec<Self> = Vec::new();
        let ghost all = items@;
        for item in it: items
            invariant
                it.seq() == all,
                list@.len() == it.index(),
                forall|j: int| 0 <= j < it.index() ==> (Self::rejection_fn())(#[trigger] all[j]) is None,
                forall|j: int| 0 <= j < it.index() ==> (#[trigger] list@[j]).is_accepted(all[j]),
        {
            proof {
                lemma_first_rejection(all, Self::rejection_fn(), it.index() as int);
            }
            let v = Self::try_from(item)?;
            list.push(v);
        }
        proof {
            lemma_first_rejection(all, Self::rejection_fn(), all.len() as int);
        }
        Ok(list)
    }
}

impl proto::members_register_update::Members {
    /// Why the members `members` is refused, if it is: it holds none of its kinds, or the one it holds is refused.
    pub open spec fn rejection(members: Option<ch_ewf_grpc::members_register_update::Members>) -> Option<Seq<char>> {
        match members {
            Some(ch_ewf_grpc::members_register_update::Members::MembersWithShares(s)) => unless(s.members@.len() != 0, "Members required"@).otherwise(
                first_rejection(s.members@, proto::members_register_update::MemberWithShares::rejection_fn()),
            ),
            Some(ch_ewf_grpc::members_register_update::Members::MembersWithoutShares(s)) => unless(s.members@.len() != 0, "Members required"@).otherwise(
                first_rejection(s.members@, proto::members_register_update::MemberWithoutShares::rejection_fn()),
            ),
            None => Some("Members required"@),
        }
    }

    /// Whether `self` is the members `members` as it goes on the wire.
    pub open spec fn is_accepted(self, members: Option<ch_ewf_grpc::members_register_update::Members>) -> bool {
        match members {
            Some(ch_ewf_grpc::members_register_update::Members::MembersWithShares(s)) => {
                self matches proto::members_register_update::Members::MembersWithShares(list) && proto::members_register_update::MemberWithShares::are_accepted(list@, s.members@)
            },
            Some(ch_ewf_grpc::members_register_update::Members::MembersWithoutShares(s)) => {
                self matches proto::members_register_update::Members::MembersWithoutShares(list) && proto::members_register_update::MemberWithoutShares::are_accepted(list@, s.members@)
            },
            None => false,
        }
    }

    pub fn try_from(members: Option<ch_ewf_grpc::members_register_update::Members>) -> (r: Result<Self, ServiceError>)
        ensures
            match Self::rejection(members) {
                Some(message) => rejected(r, message),
                None => r matches Ok(v) && v.is_accepted(members),
            },
    {
        match members {
            Some(ch_ewf_grpc::members_register_update::Members::MembersWithShares(s)) => {
                if s.members.len() == 0 {
                    return invalid_argument("Members required");
                }
                Ok(
                    proto::members_register_update::Members::MembersWithShares(
                        proto::members_register_update::MemberWithShares::try_from_all(s.members)?,
                    ),
                )
            },
            Some(ch_ewf_grpc::members_register_update::Members::MembersWithoutShares(s)) => {
                if s.members.len() == 0 {
                    return invalid_argument("Members required");
                }
                Ok(
                    proto::members_register_update::Members::MembersWithoutShares(
                        proto::members_register_update::MemberWithoutShares::try_from_all(s.members)?,
                    ),
                )
            },
            None => invalid_argument("Members required"),
        }
    }
}

/// Whether the company becomes or stops being one of a single member, as the wire has it.
pub open spec fn spec_single_member(change: ch_ewf_grpc::members_register_update::SingleMember) -> Option<
    proto::members_register_update::SingleMember,
> {
    match change {
        ch_ewf_grpc::members_register_update::SingleMember::NoChange => None,
        ch_ewf_grpc::members_register_update::SingleMember::NoLongerSingleMember => Some(
            proto::members_register_update::SingleMember::StateNoLongerSingleMember(true),
        ),
        ch_ewf_grpc::members_register_update::SingleMember::BecomingSingleMember => Some(
            proto::members_register_update::SingleMember::StateBecomingSingleMember(true),
        ),
    }
}

/// Whether the company becomes or stops being one of a single member, as the wire has it.
pub fn single_member(change: ch_ewf_grpc::members_register_update::SingleMember) -> (r: Option<
    proto::members_register_update::SingleMember,
>)
    ensures
        r == spec_single_member(change),
{
    match change {
        ch_ewf_grpc::members_register_update::SingleMember::NoChange => None,
        ch_ewf_grpc::members_register_update::SingleMember::NoLongerSingleMember => Some(
            proto::members_register_update::SingleMember::StateNoLongerSingleMember(true),
        ),
        ch_ewf_grpc::members_register_update::SingleMember::BecomingSingleMember => Some(
            proto::members_register_update::SingleMember::StateBecomingSingleMember(true),
        ),
    }
}

impl proto::members_register_update::MembersRegisterUpdate {
    /// Why the form `msg` is refused, if it is: for the first check, in order, that it fails.
    pub open spec fn rejection(msg: ch_ewf_grpc::members_register_update::MembersRegisterUpdate) -> Option<Seq<char>> {
        proto::members_register_update::Members::rejection(msg.members)
            .otherwise(unless(msg.single_member is Some, "Single member required"@))
    }

    /// Whether `self` is the form `msg` as it goes on the wire.
    pub open spec fn is_accepted(self, msg: ch_ewf_grpc::members_register_update::MembersRegisterUpdate) -> bool {
        &&& self.members.is_accepted(msg.members)
        &&& msg.single_member matches Some(v_single_member)
        &&& self.single_member == spec_single_member(v_single_member)
    }

    pub fn try_from(msg: ch_ewf_grpc::members_register_update::MembersRegisterUpdate) -> (r: Result<Self, ServiceError>)
        ensures
            match Self::rejection(msg) {
                Some(message) => rejected(r, message),
                None => r matches Ok(v) && v.is_accepted(msg),
            },
    {
        let members = proto::members_register_update::Members::try_from(msg.members)?;
        let single_member = match msg.single_member {
            Some(v) => single_member(v),
            None => {
                return invalid_argument("Single member required");
            },
        };
        Ok(
            proto::members_register_update::MembersRegisterUpdate {
                members,
                single_member,
            },
        )
    }
}

impl CHFillingService {
    /// Checks an update of the register of members and puts the form together.
    pub fn members_register_update(
        msg: ch_ewf_grpc::members_register_update::MembersRegisterUpdate,
    ) -> (r: Result<FormRequest, ServiceError>)
        ensures
            match proto::members_register_update::MembersRegisterUpdate::rejection(msg) {
                Some(message) => rejected(r, message),
                None => {
                    &&& r matches Ok(request)
                    &&& request.is_for(msg.form_submission, "MembersRegisterUpdate"@, "MembersRegisterUpdate"@)
                    &&& request.form matches proto::form_submission::Form::MembersRegisterUpdate(form)
                    &&& form.is_accepted(msg)
                },
            },
    {
        let mut msg = msg;
        let form_submission = msg.form_submission.take();
        let form = proto::members_register_update::MembersRegisterUpdate::try_from(msg)?;
        Ok(
            FormRequest {
                form_submission,
                submission_class: "MembersRegisterUpdate".to_owned(),
                form_type: "MembersRegisterUpdate".to_owned(),
                form: proto::form_submission::Form::MembersRegisterUpdate(form),
                documents: Vec::new(),
            },
        )
    }
}

impl proto::return_allotment_shares::Allotment {
    /// Why the allotment `a` is refused, if it is: for the first check, in order, that it fails.
    pub open spec fn rejection(a: ch_ewf_grpc::return_allotment_shares::Allotment) -> Option<Seq<char>> {
        unless(text_ok(a.share_class@, 50), "Invalid share class"@)
            .otherwise(unless(a.num_shares.spec_in_range(crate::decimal::MAX_AMOUNT_MICROS), "Invalid number of shares"@))
            .otherwise(unless(a.amount_paid_due_per_share.spec_in_range(crate::decimal::MAX_AMOUNT_MICROS), "Invalid amount paid due per share"@))
            .otherwise(unless(a.amount_unpaid_per_share.spec_in_range(crate::decimal::MAX_AMOUNT_MICROS), "Invalid amount unpaid per share"@))
            .otherwise(unless(byte_len(a.share_currency@) == 3, "Invalid share currency"@))
            .otherwise(unless(optional_ok(a.consideration@, 2000), "Invalid consideration"@))
    }

    /// Whether `self` is the allotment `a` as it goes on the wire.
    pub open spec fn is_accepted(self, a: ch_ewf_grpc::return_allotment_shares::Allotment) -> bool {
        &&& self.allotment.share_class == a.share_class
        &&& self.allotment.num_shares == a.num_shares
        &&& self.allotment.amount_paid_due_per_share == a.amount_paid_due_per_share
        &&& self.allotment.amount_unpaid_per_share == a.amount_unpaid_per_share
        &&& self.allotment.share_currency == a.share_currency
        &&& self.allotment.share_value == a.share_value
        &&& self.allotment.share_reference is None
        &&& self.consideration == optional(a.consideration)
    }

    pub fn try_from(a: ch_ewf_grpc::return_allotment_shares::Allotment) -> (r: Result<Self, ServiceError>)
        ensures
            match Self::rejection(a) {
                Some(message) => rejected(r, message),
                None => r matches Ok(v) && v.is_accepted(a),
            },
    {
        if !required_text(a.share_class.as_str(), 50) {
            return invalid_argument("Invalid share class");
        }
        if !a.num_shares.in_range(crate::decimal::MAX_AMOUNT_MICROS) {
            return invalid_argument("Invalid number of shares");
        }
        if !a.amount_paid_due_per_share.in_range(crate::decimal::MAX_AMOUNT_MICROS) {
            return invalid_argument("Invalid amount paid due per share");
        }
        if !a.amount_unpaid_per_share.in_range(crate::decimal::MAX_AMOUNT_MICROS) {
            return invalid_argument("Invalid amount unpaid per share");
        }
        if len(a.share_currency.as_str()) != 3 {
            return invalid_argument("Invalid share currency");
        }
        if !optional_text(a.consideration.as_str(), 2000) {
            return invalid_argument("Invalid consideration");
        }
        Ok(
            proto::return_allotment_shares::Allotment {
                allotment: proto::base_types::Allotment {
                    share_class: a.share_class,
                    num_shares: a.num_shares,
                    amount_paid_due_per_share: a.amount_paid_due_per_share,
                    amount_unpaid_per_share: a.amount_unpaid_per_share,
                    share_currency: a.share_currency,
                    share_value: a.share_value,
                    share_reference: None,
                },
                consideration: non_empty(a.consideration),
            },
        )
    }

    /// `rejection` as a function.
    pub open spec fn rejection_fn() -> spec_fn(ch_ewf_grpc::return_allotment_shares::Allotment) -> Option<Seq<char>> {
        |a: ch_ewf_grpc::return_allotment_shares::Allotment| Self::rejection(a)
    }

    /// Whether `list` holds the items of `items`, each as it goes on the wire, in order.
    pub open spec fn are_accepted(
        list: Seq<Self>,
        items: Seq<ch_ewf_grpc::return_allotment_shares::Allotment>,
    ) -> bool {
        list.len() == items.len() && forall|i: int|
            0 <= i < list.len() ==> (#[trigger] list[i]).is_accepted(items[i])
    }

    /// Checks the items in order and stops at the first that is refused.
    pub fn try_from_all(
        items: Vec<ch_ewf_grpc::return_allotment_shares::Allotment>,
    ) -> (r: Result<Vec<Self>, ServiceError>)
        ensures
            match first_rejection(items@, Self::rejection_fn()) {
                Some(message) => rejected(r, message),
                None => r matches Ok(list) && Self::are_accepted(list@, items@),
            },
    {
        let mut list: Vec<Self> = Vec::new();
        let ghost all = items@;
        for item in it: items
            invariant
                it.seq() == all,
                list@.len() == it.index(),
                forall|j: int| 0 <= j < it.index() ==> (Self::rejection_fn())(#[trigger] all[j]) is None,
                forall|j: int| 0 <= j < it.index() ==> (#[trigger] list@[j]).is_accepted(all[j]),
        {
            proof {
                lemma_first_rejection(all, Self::rejection_fn(), it.index() as int);
            }
            let v = Self::try_from(item)?;
            list.push(v);
        }
        proof {
            lemma_first_rejection(all, Self::rejection_fn(), all.len() as int);
        }
        Ok(list)
    }
}

impl proto::return_allotment_shares::ReturnOfAllotmentShares {
    /// Why the form `msg` is refused, if it is: for the first check, in order, that it fails.
    pub open spec fn rejection(
        msg: ch_ewf_grpc::return_allotment_shares::ReturnOfAllotmentShares,
    ) -> Option<Seq<char>> {
        unless(msg.statement_of_capital@.len() != 0, "Statement of capital required"@)
            .otherwise(unless(msg.start_period is Some, "Start period required"@))
            .otherwise(first_rejection(msg.statement_of_capital@, proto::base_types::Capital::rejection_fn()))
            .otherwise(first_rejection(msg.allotments@, proto::return_allotment_shares::Allotment::rejection_fn()))
    }

    /// Whether `self` is the form `msg` as it goes on the wire.
    pub open spec fn is_accepted(self, msg: ch_ewf_grpc::return_allotment_shares::ReturnOfAllotmentShares) -> bool {
        &&& msg.start_period == Some(self.start_period)
        &&& self.end_period == msg.end_period
        &&& proto::base_types::Capital::are_accepted(self.statement_of_capital.capital@, msg.statement_of_capital@)
        &&& proto::return_allotment_shares::Allotment::are_accepted(self.allotment@, msg.allotments@)
    }

    pub fn try_from(
        msg: ch_ewf_grpc::return_allotment_shares::ReturnOfAllotmentShares,
    ) -> (r: Result<Self, ServiceError>)
        ensures
            match Self::rejection(msg) {
                Some(message) => rejected(r, message),
                None => r matches Ok(v) && v.is_accepted(msg),
            },
    {
        if msg.statement_of_capital.len() == 0 {
            return invalid_argument("Statement of capital required");
        }
        let start_period = match msg.start_period {
            Some(d) => d,
            None => {
                return invalid_argument("Start period required");
            },
        };
        let capital = proto::base_types::Capital::try_from_all(msg.statement_of_capital)?;
        let allotment = proto::return_allotment_shares::Allotment::try_from_all(msg.allotments)?;
        Ok(
            proto::return_allotment_shares::ReturnOfAllotmentShares {
                start_period,
                end_period: msg.end_period,
                statement_of_capital: proto::base_types::StatementOfCapital { capital },
                allotment,
            },
        )
    }
}

impl CHFillingService {
    /// Checks a return of an allotment of shares and puts the form together.
    pub fn return_of_allotment_shares(
        msg: ch_ewf_grpc::return_allotment_shares::ReturnOfAllotmentShares,
    ) -> (r: Result<FormRequest, ServiceError>)
        ensures
            match proto::return_allotment_shares::ReturnOfAllotmentShares::rejection(msg) {
                Some(message) => rejected(r, message),
                None => {
                    &&& r matches Ok(request)
                    &&& request.is_for(msg.form_submission, "ReturnOfAllotmentShares"@, "ReturnofAllotmentShares"@)
                    &&& request.form matches proto::form_submission::Form::ReturnOfAllotmentShares(form)
                    &&& form.is_accepted(msg)
                },
            },
    {
        let mut msg = msg;
        let form_submission = msg.form_submission.take();
        let form = proto::return_allotment_shares::ReturnOfAllotmentShares::try_from(msg)?;
        Ok(
            FormRequest {
                form_submission,
                submission_class: "ReturnOfAllotmentShares".to_owned(),
                form_type: "ReturnofAllotmentShares".to_owned(),
                form: proto::form_submission::Form::ReturnOfAllotmentShares(form),
                documents: Vec::new(),
            },
        )
    }
}

} // verus!
