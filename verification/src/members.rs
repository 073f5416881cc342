//! How the parts of a request that describe members and their holdings are
//! checked and turned into what goes on the wire.

use vstd::prelude::*;
use vstd::string::*;
use crate::ch_ewf_grpc;
use crate::error::ServiceError;
use crate::proto;
use crate::rules::{
    invalid_argument, non_empty, optional, optional_ok, optional_text, rejected, required_text, text_ok,
    unless, Checks,
};
use crate::text::{byte_len, len};

verus! {

impl ch_ewf_grpc::members_data::MemberName {
    /// Whether `self` is the reply for the member's name `name`.
    pub open spec fn is_from(self, name: proto::register::MemberName) -> bool {
        match name {
            proto::register::MemberName::Person(p) => self.name == Some(
                ch_ewf_grpc::members_data::MemberNameValue::IndividualName(
                    ch_ewf_grpc::members_data::MemberPersonName { forename: p.forename, surname: p.surname },
                ),
            ),
            proto::register::MemberName::CorporateName(c) => self.name == Some(
                ch_ewf_grpc::members_data::MemberNameValue::CorporateName(c),
            ),
        }
    }

    pub fn from(name: proto::register::MemberName) -> (r: Self)
        ensures
            r.is_from(name),
    {
        ch_ewf_grpc::members_data::MemberName {
            name: Some(
                match name {
                    proto::register::MemberName::Person(p) => ch_ewf_grpc::members_data::MemberNameValue::IndividualName(
                        ch_ewf_grpc::members_data::MemberPersonName { forename: p.forename, surname: p.surname },
                    ),
                    proto::register::MemberName::CorporateName(c) => ch_ewf_grpc::members_data::MemberNameValue::CorporateName(
                        c,
                    ),
                },
            ),
        }
    }
}

impl proto::base_types::Shares {
    /// Why the holding of shares `share` is refused, if it is: for the first check, in order, that it fails.
    pub open spec fn rejection(share: ch_ewf_grpc::members_data::Share) -> Option<Seq<char>> {
        unless(share.num_shares.spec_in_range(crate::decimal::MAX_AMOUNT_MICROS), "Invalid number of shares"@)
            .otherwise(unless(text_ok(share.share_class@, 50), "Invalid share class"@))
            .otherwise(unless(optional_ok(share.share_reference@, 100), "Invalid share reference"@))
    }

    /// Whether `self` is the holding of shares `share` as it goes on the wire.
    pub open spec fn is_accepted(self, share: ch_ewf_grpc::members_data::Share) -> bool {
        &&& self.num_shares == share.num_shares
        &&& self.share_class == share.share_class
        &&& self.share_reference == optional(share.share_reference)
    }

    pub fn try_from(share: ch_ewf_grpc::members_data::Share) -> (r: Result<Self, ServiceError>)
        ensures
            match Self::rejection(share) {
                Some(message) => rejected(r, message),
                None => r matches Ok(v) && v.is_accepted(share),
            },
    {
        if !share.num_shares.in_range(crate::decimal::MAX_AMOUNT_MICROS) {
            return invalid_argument("Invalid number of shares");
        }
        if !required_text(share.share_class.as_str(), 50) {
            return invalid_argument("Invalid share class");
        }
        if !optional_text(share.share_reference.as_str(), 100) {
            return invalid_argument("Invalid share reference");
        }
        Ok(
            proto::base_types::Shares {
                num_shares: share.num_shares,
                share_class: share.share_class,
                share_reference: non_empty(share.share_reference),
            },
        )
    }
}

impl proto::base_types::SharesHeld {
    /// Why the shares held `s` is refused, if it is: for the first check, in order, that it fails.
    pub open spec fn rejection(s: ch_ewf_grpc::members_data::SharesHeld) -> Option<Seq<char>> {
        match s.share {
            Some(share) => proto::base_types::Shares::rejection(share),
            None => Some("Share required"@),
        }
    }

    /// Whether `self` is the shares held `s` as it goes on the wire.
    pub open spec fn is_accepted(self, s: ch_ewf_grpc::members_data::SharesHeld) -> bool {
        &&& s.share matches Some(share)
        &&& self.shares.is_accepted(share)
        &&& self.paid_up == s.amount_paid_up
    }

    pub fn try_from(s: ch_ewf_grpc::members_data::SharesHeld) -> (r: Result<Self, ServiceError>)
        ensures
            match Self::rejection(s) {
                Some(message) => rejected(r, message),
                None => r matches Ok(v) && v.is_accepted(s),
            },
    {
        let share = match s.share {
            Some(share) => proto::base_types::Shares::try_from(share)?,
            None => {
                return invalid_argument("Share required");
            },
        };
        Ok(
            proto::base_types::SharesHeld {
                shares: share,
                paid_up: s.amount_paid_up,
            },
        )
    }
}

impl proto::base_types::StocksHeld {
    /// Why the stock held `s` is refused, if it is: for the first check, in order, that it fails.
    pub open spec fn rejection(s: ch_ewf_grpc::members_data::StockHeld) -> Option<Seq<char>> {
        unless(text_ok(s.stock_class@, 50), "Invalid stock class"@)
            .otherwise(unless(s.amount_held.spec_in_range(crate::decimal::MAX_AMOUNT_MICROS), "Invalid amount held"@))
            .otherwise(unless(s.currency@.len() == 0 || byte_len(s.currency@) == 3, "Invalid currency"@))
    }

    /// Whether `self` is the stock held `s` as it goes on the wire.
    pub open spec fn is_accepted(self, s: ch_ewf_grpc::members_data::StockHeld) -> bool {
        &&& self.stock_class == s.stock_class
        &&& self.amount_held == s.amount_held
        &&& self.currency == optional(s.currency)
    }

    pub fn try_from(s: ch_ewf_grpc::members_data::StockHeld) -> (r: Result<Self, ServiceError>)
        ensures
            match Self::rejection(s) {
                Some(message) => rejected(r, message),
                None => r matches Ok(v) && v.is_accepted(s),
            },
    {
        if !required_text(s.stock_class.as_str(), 50) {
            return invalid_argument("Invalid stock class");
        }
        if !s.amount_held.in_range(crate::decimal::MAX_AMOUNT_MICROS) {
            return invalid_argument("Invalid amount held");
        }
        if !s.currency.as_str().is_empty() && len(s.currency.as_str()) != 3 {
            return invalid_argument("Invalid currency");
        }
        Ok(
            proto::base_types::StocksHeld {
                stock_class: s.stock_class,
                amount_held: s.amount_held,
                currency: non_empty(s.currency),
            },
        )
    }
}

impl proto::base_types::StocksOrSharesHeld {
    /// Why the holding `value` is refused, if it is: it holds none of its kinds, or the one it holds is refused.
    pub open spec fn rejection(value: ch_ewf_grpc::members_data::SharesOrStockHeld) -> Option<Seq<char>> {
        match value.shares_or_stock {
            Some(ch_ewf_grpc::members_data::SharesOrStock::Shares(s)) => proto::base_types::SharesHeld::rejection(s),
            Some(ch_ewf_grpc::members_data::SharesOrStock::Stock(s)) => proto::base_types::StocksHeld::rejection(s),
            None => Some("Shares or stock held required"@),
        }
    }

    /// Whether `self` is the holding `value` as it goes on the wire.
    pub open spec fn is_accepted(self, value: ch_ewf_grpc::members_data::SharesOrStockHeld) -> bool {
        match value.shares_or_stock {
            Some(ch_ewf_grpc::members_data::SharesOrStock::Shares(s)) => {
                self matches proto::base_types::StocksOrSharesHeld::SharesHeld(got) && got.is_accepted(s)
            },
            Some(ch_ewf_grpc::members_data::SharesOrStock::Stock(s)) => {
                self matches proto::base_types::StocksOrSharesHeld::StocksHeld(got) && got.is_accepted(s)
            },
            None => false,
        }
    }

    pub fn try_from(value: ch_ewf_grpc::members_data::SharesOrStockHeld) -> (r: Result<Self, ServiceError>)
        ensures
            match Self::rejection(value) {
                Some(message) => rejected(r, message),
                None => r matches Ok(v) && v.is_accepted(value),
            },
    {
        match value.shares_or_stock {
            Some(ch_ewf_grpc::members_data::SharesOrStock::Shares(s)) => {
                Ok(proto::base_types::StocksOrSharesHeld::SharesHeld(proto::base_types::SharesHeld::try_from(s)?))
            },
            Some(ch_ewf_grpc::members_data::SharesOrStock::Stock(s)) => {
                Ok(proto::base_types::StocksOrSharesHeld::StocksHeld(proto::base_types::StocksHeld::try_from(s)?))
            },
            None => invalid_argument("Shares or stock held required"),
        }
    }
}

impl proto::base_types::CompanyMemberName {
    /// Why the member's name `value` is refused, if it is: it holds none of its kinds, or the one it holds is refused.
    pub open spec fn rejection(value: ch_ewf_grpc::members_data::MemberName) -> Option<Seq<char>> {
        match value.name {
            Some(ch_ewf_grpc::members_data::MemberNameValue::IndividualName(i)) => unless(text_ok(i.surname@, 160), "Invalid surname"@).otherwise(
                unless(text_ok(i.forename@, 160), "Invalid forename"@),
            ),
            Some(ch_ewf_grpc::members_data::MemberNameValue::CorporateName(c)) => None,
            None => Some("Member name required"@),
        }
    }

    /// Whether `self` is the member's name `value` as it goes on the wire.
    pub open spec fn is_accepted(self, value: ch_ewf_grpc::members_data::MemberName) -> bool {
        match value.name {
            Some(ch_ewf_grpc::members_data::MemberNameValue::IndividualName(i)) => self == proto::base_types::CompanyMemberName::Person(
                proto::base_types::Person { forename: i.forename, surname: i.surname },
            ),
            Some(ch_ewf_grpc::members_data::MemberNameValue::CorporateName(c)) => {
                self == proto::base_types::CompanyMemberName::CorporateName(c)
            },
            None => false,
        }
    }

    pub fn try_from(value: ch_ewf_grpc::members_data::MemberName) -> (r: Result<Self, ServiceError>)
        ensures
            match Self::rejection(value) {
                Some(message) => rejected(r, message),
                None => r matches Ok(v) && v.is_accepted(value),
            },
    {
        match value.name {
            Some(ch_ewf_grpc::members_data::MemberNameValue::IndividualName(i)) => {
                if !required_text(i.surname.as_str(), 160) {
                    return invalid_argument("Invalid surname");
                }
                if !required_text(i.forename.as_str(), 160) {
                    return invalid_argument("Invalid forename");
                }
                Ok(
                    proto::base_types::CompanyMemberName::Person(
                        proto::base_types::Person { forename: i.forename, surname: i.surname },
                    ),
                )
            },
            Some(ch_ewf_grpc::members_data::MemberNameValue::CorporateName(c)) => {
                Ok(proto::base_types::CompanyMemberName::CorporateName(c))
            },
            None => invalid_argument("Member name required"),
        }
    }
}

impl proto::base_types::CompanyMember {
    /// Why the member `value` is refused, if it is: for the first check, in order, that it fails.
    pub open spec fn rejection(value: ch_ewf_grpc::members_data::CompanyMember) -> Option<Seq<char>> {
        unless(optional_ok(value.class@, 50), "Invalid member class"@)
            .otherwise(
                match value.name {
                    Some(name) => proto::base_types::CompanyMemberName::rejection(name),
                    None => Some("Member name required"@),
                },
            )
            .otherwise(
                match value.address {
                    Some(address) => proto::base_types::BaseAddress::rejection(address),
                    None => Some("Address required"@),
                },
            )
    }

    /// Whether `self` is the member `value` as it goes on the wire.
    pub open spec fn is_accepted(self, value: ch_ewf_grpc::members_data::CompanyMember) -> bool {
        &&& self.member_class == optional(value.class)
        &&& value.name matches Some(name)
        &&& self.name.is_accepted(name)
        &&& value.address matches Some(address)
        &&& self.address.is_accepted(address)
    }

    pub fn try_from(value: ch_ewf_grpc::members_data::CompanyMember) -> (r: Result<Self, ServiceError>)
        ensures
            match Self::rejection(value) {
                Some(message) => rejected(r, message),
                None => r matches Ok(v) && v.is_accepted(value),
            },
    {
        if !optional_text(value.class.as_str(), 50) {
            return invalid_argument("Invalid member class");
        }
        let name = match value.name {
            Some(name) => proto::base_types::CompanyMemberName::try_from(name)?,
            None => {
                return invalid_argument("Member name required");
            },
        };
        let address = match value.address {
            Some(address) => proto::base_types::BaseAddress::try_from(address)?,
            None => {
                return invalid_argument("Address required");
            },
        };
        Ok(
            proto::base_types::CompanyMember {
                member_class: non_empty(value.class),
                name,
                address,
            },
        )
    }
}

impl proto::members_register_update::CeasedToBeMemberType {
    /// Why the way of ceasing `status` is refused, if it is: it holds none of its kinds, or the one
    /// it holds is refused.
    pub open spec fn rejection(
        status: Option<ch_ewf_grpc::members_register_update::CeasedToBeMemberStatus>,
    ) -> Option<Seq<char>> {
        match status {
            Some(ch_ewf_grpc::members_register_update::CeasedToBeMemberStatus::CeasedToBeMember(c)) => {
                unless(c, "Ceased to be member must be true"@)
            },
            Some(ch_ewf_grpc::members_register_update::CeasedToBeMemberStatus::DateCeased(d)) => {
                unless(d is Some, "Date ceased required"@)
            },
            None => Some("Status required"@),
        }
    }

    /// Whether `self` is the way of ceasing `status` as it goes on the wire.
    pub open spec fn is_accepted(
        self,
        status: Option<ch_ewf_grpc::members_register_update::CeasedToBeMemberStatus>,
    ) -> bool {
        match status {
            Some(ch_ewf_grpc::members_register_update::CeasedToBeMemberStatus::CeasedToBeMember(c)) => {
                self == proto::members_register_update::CeasedToBeMemberType::StateCeasedToBeMember(true)
            },
            Some(ch_ewf_grpc::members_register_update::CeasedToBeMemberStatus::DateCeased(d)) => {
                d matches Some(date) && self == proto::members_register_update::CeasedToBeMemberType::DateCeasedToBeMember(date)
            },
            None => false,
        }
    }

    pub fn try_from(
        status: Option<ch_ewf_grpc::members_register_update::CeasedToBeMemberStatus>,
    ) -> (r: Result<Self, ServiceError>)
        ensures
            match Self::rejection(status) {
                Some(message) => rejected(r, message),
                None => r matches Ok(v) && v.is_accepted(status),
            },
    {
        match status {
            Some(ch_ewf_grpc::members_register_update::CeasedToBeMemberStatus::CeasedToBeMember(c)) => {
                if !c {
                    return invalid_argument("Ceased to be member must be true");
                }
                Ok(proto::members_register_update::CeasedToBeMemberType::StateCeasedToBeMember(true))
            },
            Some(ch_ewf_grpc::members_register_update::CeasedToBeMemberStatus::DateCeased(d)) => match d {
                Some(date) => Ok(proto::members_register_update::CeasedToBeMemberType::DateCeasedToBeMember(date)),
                None => invalid_argument("Date ceased required"),
            },
            None => invalid_argument("Status required"),
        }
    }
}

impl proto::members_register_update::CeasedToBeMember {
    /// Why the member who ceased `value` is refused, if it is: for the first check, in order, that it fails.
    pub open spec fn rejection(value: ch_ewf_grpc::members_register_update::CeasedToBeMember) -> Option<Seq<char>> {
        unless(value.date_registered is Some, "Date registered required"@)
            .otherwise(proto::members_register_update::CeasedToBeMemberType::rejection(value.status))
    }

    /// Whether `self` is the member who ceased `value` as it goes on the wire.
    pub open spec fn is_accepted(self, value: ch_ewf_grpc::members_register_update::CeasedToBeMember) -> bool {
        &&& value.date_registered == Some(self.date_registered_as_member)
        &&& self.ceasation_type.is_accepted(value.status)
    }

    pub fn try_from(value: ch_ewf_grpc::members_register_update::CeasedToBeMember) -> (r: Result<Self, ServiceError>)
        ensures
            match Self::rejection(value) {
                Some(message) => rejected(r, message),
                None => r matches Ok(v) && v.is_accepted(value),
            },
    {
        let date_registered_as_member = match value.date_registered {
            Some(d) => d,
            None => {
                return invalid_argument("Date registered required");
            },
        };
        let ceasation_type = proto::members_register_update::CeasedToBeMemberType::try_from(value.status)?;
        Ok(
            proto::members_register_update::CeasedToBeMember {
                date_registered_as_member,
                ceasation_type,
            },
        )
    }
}

} // verus!
