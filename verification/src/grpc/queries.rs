//! Asking the registry for reminders, payment periods, the register of
//! members and charges, and reporting what it answers.

use vstd::prelude::*;
use vstd::string::*;
use crate::ch_ewf_grpc;
use crate::error::{ErrorCode, ServiceError};
use crate::gov_talk::{GovTalkErrors, GovTalkResponse};
use crate::grpc::company_data::{answered, authentication_code_rejection, Request};
use crate::grpc::submission::{declined_message, mismatched, renamed, spec_company_type};
use crate::grpc::CHFillingService;
use crate::proto;
use crate::proto::govtalk::GovTalkBody;
use crate::rules::{or_empty, rejected, text_or_empty};

verus! {

impl ch_ewf_grpc::e_reminders::EReminderRecipient {
    /// Whether `self` is the reply for the recipient `recipient`.
    pub open spec fn is_from(self, recipient: proto::e_reminders::Recipient) -> bool {
        &&& self.email_address == recipient.email
        &&& self.activated == recipient.activated
    }

    pub fn from(recipient: proto::e_reminders::Recipient) -> (r: Self)
        ensures
            r.is_from(recipient),
    {
        ch_ewf_grpc::e_reminders::EReminderRecipient {
            email_address: recipient.email,
            activated: recipient.activated,
        }
    }

    /// Whether `list` holds the replies for the items of `items`, in order.
    pub open spec fn are_from(list: Seq<Self>, items: Seq<proto::e_reminders::Recipient>) -> bool {
        list.len() == items.len() && forall|i: int| 0 <= i < list.len() ==> (#[trigger] list[i]).is_from(items[i])
    }

    /// The replies for the items, in order.
    pub fn from_all(items: Vec<proto::e_reminders::Recipient>) -> (r: Vec<Self>)
        ensures
            Self::are_from(r@, items@),
    {
        let mut list: Vec<Self> = Vec::new();
        let ghost all = items@;
        for item in it: items
            invariant
                it.seq() == all,
                list@.len() == it.index(),
                forall|j: int| 0 <= j < it.index() ==> (#[trigger] list@[j]).is_from(all[j]),
        {
            list.push(Self::from(item));
        }
        list
    }
}

impl ch_ewf_grpc::e_reminders::EReminders {
    /// Whether `self` is the reply for the reminders `body`.
    pub open spec fn is_from(self, body: proto::e_reminders::EReminders) -> bool {
        &&& ch_ewf_grpc::e_reminders::EReminderRecipient::are_from(self.recipients@, body.recipients@)
    }

    pub fn from(body: proto::e_reminders::EReminders) -> (r: Self)
        ensures
            r.is_from(body),
    {
        ch_ewf_grpc::e_reminders::EReminders {
            recipients: ch_ewf_grpc::e_reminders::EReminderRecipient::from_all(body.recipients),
        }
    }
}

impl CHFillingService {
    /// Checks a request for the addresses that reminders go to and puts it together.
    pub fn get_e_reminders(msg: ch_ewf_grpc::e_reminders::GetERemindersRequest) -> (r: Result<Request, ServiceError>)
        ensures
            match authentication_code_rejection(msg.authentication_code@) {
                Some(message) => rejected(r, message),
                None => {
                    &&& r matches Ok(request)
                    &&& request.class@ == "GetERemindersRequest"@
                    &&& request.body == GovTalkBody::GetERemindersRequest(
                        proto::e_reminders::GetERemindersRequest {
                            company_number: msg.company_number,
                            company_type: renamed(
                                msg.company_type,
                                |c: ch_ewf_grpc::base_types::CompanyType| spec_company_type(c),
                            ),
                            company_authentication_code: msg.authentication_code,
                        },
                    )
                },
            },
    {
        match Self::check_authentication_code(msg.authentication_code.as_str()) {
            Ok(()) => {},
            Err(e) => {
                return Err(e);
            },
        }
        Ok(
            Request {
                class: "GetERemindersRequest".to_owned(),
                body: GovTalkBody::GetERemindersRequest(
                    proto::e_reminders::GetERemindersRequest {
                        company_number: msg.company_number,
                        company_type: Self::map_company_type(msg.company_type),
                        company_authentication_code: msg.authentication_code,
                    },
                ),
            },
        )
    }
}

impl CHFillingService {
    /// Checks a request to set the addresses that reminders go to and puts it together.
    pub fn set_e_reminders(msg: ch_ewf_grpc::e_reminders::SetERemindersRequest) -> (r: Result<Request, ServiceError>)
        ensures
            match authentication_code_rejection(msg.authentication_code@) {
                Some(message) => rejected(r, message),
                None => {
                    &&& r matches Ok(request)
                    &&& request.class@ == "SetERemindersRequest"@
                    &&& request.body == GovTalkBody::SetERemindersRequest(
                        proto::e_reminders::SetERemindersRequest {
                            company_number: msg.company_number,
                            company_type: renamed(
                                msg.company_type,
                                |c: ch_ewf_grpc::base_types::CompanyType| spec_company_type(c),
                            ),
                            company_authentication_code: msg.authentication_code,
                            emails: msg.email_addresses,
                        },
                    )
                },
            },
    {
        match Self::check_authentication_code(msg.authentication_code.as_str()) {
            Ok(()) => {},
            Err(e) => {
                return Err(e);
            },
        }
        Ok(
            Request {
                class: "SetERemindersRequest".to_owned(),
                body: GovTalkBody::SetERemindersRequest(
                    proto::e_reminders::SetERemindersRequest {
                        company_number: msg.company_number,
                        company_type: Self::map_company_type(msg.company_type),
                        company_authentication_code: msg.authentication_code,
                        emails: msg.email_addresses,
                    },
                ),
            },
        )
    }
}

impl CHFillingService {
    /// The reply for the registry's answer to a request about reminders.
    pub fn e_reminders_reply(
        result: Result<GovTalkResponse, GovTalkErrors>,
    ) -> (r: Result<ch_ewf_grpc::e_reminders::EReminders, ServiceError>)
        ensures
            match result {
                Err(e) => r matches Err(failure) && failure.is(ErrorCode::Unknown, declined_message(e)),
                Ok(response) => match response.body {
                    Some(GovTalkBody::EReminders(d)) => r matches Ok(reply) && reply.is_from(d),
                    _ => r matches Err(failure) && failure.is(
                        ErrorCode::Internal,
                        "Mismatched response message received"@,
                    ),
                },
            },
    {
        let response = answered(result)?;
        match response.body {
            Some(GovTalkBody::EReminders(d)) => Ok(ch_ewf_grpc::e_reminders::EReminders::from(d)),
            _ => mismatched(),
        }
    }
}

impl ch_ewf_grpc::payment_periods::PaymentPeriod {
    /// Whether `self` is the reply for the period `p`.
    pub open spec fn is_from(self, p: proto::payment_periods::PaymentPeriod) -> bool {
        &&& self.start_date == Some(p.start_date)
        &&& self.end_date == Some(p.end_date)
        &&& self.period_paid == p.paid
    }

    pub fn from(p: proto::payment_periods::PaymentPeriod) -> (r: Self)
        ensures
            r.is_from(p),
    {
        ch_ewf_grpc::payment_periods::PaymentPeriod {
            start_date: Some(p.start_date),
            end_date: Some(p.end_date),
            period_paid: p.paid,
        }
    }

    /// Whether `list` holds the replies for the items of `items`, in order.
    pub open spec fn are_from(list: Seq<Self>, items: Seq<proto::payment_periods::PaymentPeriod>) -> bool {
        list.len() == items.len() && forall|i: int| 0 <= i < list.len() ==> (#[trigger] list[i]).is_from(items[i])
    }

    /// The replies for the items, in order.
    pub fn from_all(items: Vec<proto::payment_periods::PaymentPeriod>) -> (r: Vec<Self>)
        ensures
            Self::are_from(r@, items@),
    {
        let mut list: Vec<Self> = Vec::new();
        let ghost all = items@;
        for item in it: items
            invariant
                it.seq() == all,
                list@.len() == it.index(),
                forall|j: int| 0 <= j < it.index() ==> (#[trigger] list@[j]).is_from(all[j]),
        {
            list.push(Self::from(item));
        }
        list
    }
}

impl ch_ewf_grpc::payment_periods::PaymentPeriodsResponse {
    /// Whether `self` is the reply for the periods `body`.
    pub open spec fn is_from(self, body: proto::payment_periods::PaymentPeriods) -> bool {
        &&& ch_ewf_grpc::payment_periods::PaymentPeriod::are_from(self.periods@, body.periods@)
    }

    pub fn from(body: proto::payment_periods::PaymentPeriods) -> (r: Self)
        ensures
            r.is_from(body),
    {
        ch_ewf_grpc::payment_periods::PaymentPeriodsResponse {
            periods: ch_ewf_grpc::payment_periods::PaymentPeriod::from_all(body.periods),
        }
    }
}

impl CHFillingService {
    /// Checks a request for the payment periods and puts it together.
    pub fn payment_periods(
        msg: ch_ewf_grpc::payment_periods::PaymentPeriodsRequest,
    ) -> (r: Result<Request, ServiceError>)
        ensures
            match authentication_code_rejection(msg.authentication_code@) {
                Some(message) => rejected(r, message),
                None => {
                    &&& r matches Ok(request)
                    &&& request.class@ == "PaymentPeriodsRequest"@
                    &&& request.body == GovTalkBody::PaymentPeriodsRequest(
                        proto::payment_periods::PaymentPeriodsRequest {
                            company_number: msg.company_number,
                            company_type: renamed(
                                msg.company_type,
                                |c: ch_ewf_grpc::base_types::CompanyType| spec_company_type(c),
                            ),
                            company_authentication_code: msg.authentication_code,
                        },
                    )
                },
            },
    {
        match Self::check_authentication_code(msg.authentication_code.as_str()) {
            Ok(()) => {},
            Err(e) => {
                return Err(e);
            },
        }
        Ok(
            Request {
                class: "PaymentPeriodsRequest".to_owned(),
                body: GovTalkBody::PaymentPeriodsRequest(
                    proto::payment_periods::PaymentPeriodsRequest {
                        company_number: msg.company_number,
                        company_type: Self::map_company_type(msg.company_type),
                        company_authentication_code: msg.authentication_code,
                    },
                ),
            },
        )
    }
}

impl CHFillingService {
    /// The reply for the registry's answer to a request for the payment periods.
    pub fn payment_periods_reply(
        result: Result<GovTalkResponse, GovTalkErrors>,
    ) -> (r: Result<ch_ewf_grpc::payment_periods::PaymentPeriodsResponse, ServiceError>)
        ensures
            match result {
                Err(e) => r matches Err(failure) && failure.is(ErrorCode::Unknown, declined_message(e)),
                Ok(response) => match response.body {
                    Some(GovTalkBody::PaymentPeriods(d)) => r matches Ok(reply) && reply.is_from(d),
                    _ => r matches Err(failure) && failure.is(
                        ErrorCode::Internal,
                        "Mismatched response message received"@,
                    ),
                },
            },
    {
        let response = answered(result)?;
        match response.body {
            Some(GovTalkBody::PaymentPeriods(d)) => Ok(ch_ewf_grpc::payment_periods::PaymentPeriodsResponse::from(d)),
            _ => mismatched(),
        }
    }
}

impl ch_ewf_grpc::members_data::MemberName {
    /// Whether `list` holds the replies for the items of `items`, in order.
    pub open spec fn are_from(list: Seq<Self>, items: Seq<proto::register::MemberName>) -> bool {
        list.len() == items.len() && forall|i: int| 0 <= i < list.len() ==> (#[trigger] list[i]).is_from(items[i])
    }

    /// The replies for the items, in order.
    pub fn from_all(items: Vec<proto::register::MemberName>) -> (r: Vec<Self>)
        ensures
            Self::are_from(r@, items@),
    {
        let mut list: Vec<Self> = Vec::new();
        let ghost all = items@;
        for item in it: items
            invariant
                it.seq() == all,
                list@.len() == it.index(),
                forall|j: int| 0 <= j < it.index() ==> (#[trigger] list@[j]).is_from(all[j]),
        {
            list.push(Self::from(item));
        }
        list
    }
}

impl ch_ewf_grpc::members_data::SharesOrStockHeld {
    /// Whether `self` is the reply for the holding `s`.
    pub open spec fn is_from(self, s: proto::register::StocksOrSharesHeld) -> bool {
        &&& self.shares_or_stock matches Some(value)
        &&& match s {
            proto::register::StocksOrSharesHeld::SharesHeld(h) => value matches ch_ewf_grpc::members_data::SharesOrStock::Shares(got) && {
                &&& got.share matches Some(share)
                &&& share.num_shares == h.num_shares
                &&& share.share_class == h.share_class
                &&& share.share_reference@ == text_or_empty(h.share_reference)
                &&& got.amount_paid_up == h.paid_up
            },
            proto::register::StocksOrSharesHeld::StocksHeld(h) => value == ch_ewf_grpc::members_data::SharesOrStock::Stock(
                ch_ewf_grpc::members_data::StockHeld {
                    stock_class: h.stock_class,
                    amount_held: h.amount_held,
                    currency: h.currency,
                },
            ),
        }
    }

    pub fn from(s: proto::register::StocksOrSharesHeld) -> (r: Self)
        ensures
            r.is_from(s),
    {
        ch_ewf_grpc::members_data::SharesOrStockHeld {
            shares_or_stock: Some(
                match s {
                    proto::register::StocksOrSharesHeld::SharesHeld(h) => ch_ewf_grpc::members_data::SharesOrStock::Shares(
                        ch_ewf_grpc::members_data::SharesHeld {
                            share: Some(
                                ch_ewf_grpc::members_data::Share {
                                    num_shares: h.num_shares,
                                    share_class: h.share_class,
                                    share_reference: or_empty(h.share_reference),
                                },
                            ),
                            amount_paid_up: h.paid_up,
                        },
                    ),
                    proto::register::StocksOrSharesHeld::StocksHeld(h) => ch_ewf_grpc::members_data::SharesOrStock::Stock(
                        ch_ewf_grpc::members_data::StockHeld {
                            stock_class: h.stock_class,
                            amount_held: h.amount_held,
                            currency: h.currency,
                        },
                    ),
                },
            ),
        }
    }

    /// Whether `list` holds the replies for the items of `items`, in order.
    pub open spec fn are_from(list: Seq<Self>, items: Seq<proto::register::StocksOrSharesHeld>) -> bool {
        list.len() == items.len() && forall|i: int| 0 <= i < list.len() ==> (#[trigger] list[i]).is_from(items[i])
    }

    /// The replies for the items, in order.
    pub fn from_all(items: Vec<proto::register::StocksOrSharesHeld>) -> (r: Vec<Self>)
        ensures
            Self::are_from(r@, items@),
    {
        let mut list: Vec<Self> = Vec::new();
        let ghost all = items@;
        for item in it: items
            invariant
                it.seq() == all,
                list@.len() == it.index(),
                forall|j: int| 0 <= j < it.index() ==> (#[trigger] list@[j]).is_from(all[j]),
        {
            list.push(Self::from(item));
        }
        list
    }
}

impl ch_ewf_grpc::members_data::MemberWithShares {
    /// Whether `self` is the reply for the member `s`.
    pub open spec fn is_from(self, s: proto::members_data::MemberWithShares) -> bool {
        &&& ch_ewf_grpc::members_data::MemberName::are_from(self.name@, s.name@)
        &&& ch_ewf_grpc::members_data::SharesOrStockHeld::are_from(self.shares_or_stock_held@, s.stocks_or_shares@)
        &&& self.address matches Some(got_address)
        &&& got_address.is_from(s.address)
        &&& self.date_registered == Some(s.date_registered)
        &&& self.date_ceased == s.date_ceased
    }

    pub fn from(s: proto::members_data::MemberWithShares) -> (r: Self)
        ensures
            r.is_from(s),
    {
        ch_ewf_grpc::members_data::MemberWithShares {
            name: ch_ewf_grpc::members_data::MemberName::from_all(s.name),
            shares_or_stock_held: ch_ewf_grpc::members_data::SharesOrStockHeld::from_all(s.stocks_or_shares),
            address: Some(ch_ewf_grpc::base_types::BaseAddress::from(s.address)),
            date_registered: Some(s.date_registered),
            date_ceased: s.date_ceased,
        }
    }
}

impl ch_ewf_grpc::members_data::MemberWithoutShares {
    /// Whether `self` is the reply for the member `s`.
    pub open spec fn is_from(self, s: proto::members_data::Member) -> bool {
        &&& self.member matches Some(member)
        &&& member.class == s.class
        &&& member.name matches Some(name)
        &&& name.is_from(s.name)
        &&& member.address matches Some(address)
        &&& address.is_from(s.address)
        &&& self.date_registered == Some(s.date_registered)
        &&& self.date_ceased == s.date_ceased
    }

    pub fn from(s: proto::members_data::Member) -> (r: Self)
        ensures
            r.is_from(s),
    {
        ch_ewf_grpc::members_data::MemberWithoutShares {
            member: Some(
                ch_ewf_grpc::members_data::CompanyMember {
                    class: s.class,
                    name: Some(ch_ewf_grpc::members_data::MemberName::from(s.name)),
                    address: Some(ch_ewf_grpc::base_types::BaseAddress::from(s.address)),
                },
            ),
            date_registered: Some(s.date_registered),
            date_ceased: s.date_ceased,
        }
    }
}

impl ch_ewf_grpc::members_data::Member {
    /// Whether `self` is the reply for the member `m`.
    pub open spec fn is_from(self, m: proto::members_data::MemberType) -> bool {
        &&& self.member matches Some(value)
        &&& match m {
            proto::members_data::MemberType::MemberWithShares(s) => {
                value matches ch_ewf_grpc::members_data::MemberKind::MemberWithShares(got) && got.is_from(s)
            },
            proto::members_data::MemberType::Member(s) => {
                value matches ch_ewf_grpc::members_data::MemberKind::MemberWithoutShares(got) && got.is_from(s)
            },
        }
    }

    pub fn from(m: proto::members_data::MemberType) -> (r: Self)
        ensures
            r.is_from(m),
    {
        ch_ewf_grpc::members_data::Member {
            member: Some(
                match m {
                    proto::members_data::MemberType::MemberWithShares(s) => {
                        ch_ewf_grpc::members_data::MemberKind::MemberWithShares(
                            ch_ewf_grpc::members_data::MemberWithShares::from(s),
                        )
                    },
                    proto::members_data::MemberType::Member(s) => {
                        ch_ewf_grpc::members_data::MemberKind::MemberWithoutShares(
                            ch_ewf_grpc::members_data::MemberWithoutShares::from(s),
                        )
                    },
                },
            ),
        }
    }

    /// Whether `list` holds the replies for the items of `items`, in order.
    pub open spec fn are_from(list: Seq<Self>, items: Seq<proto::members_data::MemberType>) -> bool {
        list.len() == items.len() && forall|i: int| 0 <= i < list.len() ==> (#[trigger] list[i]).is_from(items[i])
    }

    /// The replies for the items, in order.
    pub fn from_all(items: Vec<proto::members_data::MemberType>) -> (r: Vec<Self>)
        ensures
            Self::are_from(r@, items@),
    {
        let mut list: Vec<Self> = Vec::new();
        let ghost all = items@;
        for item in it: items
            invariant
                it.seq() == all,
                list@.len() == it.index(),
                forall|j: int| 0 <= j < it.index() ==> (#[trigger] list@[j]).is_from(all[j]),
        {
            list.push(Self::from(item));
        }
        list
    }
}

impl ch_ewf_grpc::members_data::MembersRegisterResponse {
    /// Whether `self` is the reply for the register of members `body`.
    pub open spec fn is_from(self, body: proto::members_data::MembersData) -> bool {
        &&& ch_ewf_grpc::members_data::Member::are_from(self.members@, body.members.members@)
    }

    pub fn from(body: proto::members_data::MembersData) -> (r: Self)
        ensures
            r.is_from(body),
    {
        ch_ewf_grpc::members_data::MembersRegisterResponse {
            members: ch_ewf_grpc::members_data::Member::from_all(body.members.members),
        }
    }
}

impl CHFillingService {
    /// Checks a request for the register of members and puts it together.
    pub fn members_register(
        msg: ch_ewf_grpc::members_data::MembersRegisterRequest,
    ) -> (r: Result<Request, ServiceError>)
        ensures
            match authentication_code_rejection(msg.authentication_code@) {
                Some(message) => rejected(r, message),
                None => {
                    &&& r matches Ok(request)
                    &&& request.class@ == "MembersRegisterDataRequest"@
                    &&& request.body == GovTalkBody::MembersDataRequest(
                        proto::members_data::MembersDataRequest {
                            company_number: msg.company_number,
                            company_type: renamed(
                                msg.company_type,
                                |c: ch_ewf_grpc::base_types::CompanyType| spec_company_type(c),
                            ),
                            company_authentication_code: msg.authentication_code,
                        },
                    )
                },
            },
    {
        match Self::check_authentication_code(msg.authentication_code.as_str()) {
            Ok(()) => {},
            Err(e) => {
                return Err(e);
            },
        }
        Ok(
            Request {
                class: "MembersRegisterDataRequest".to_owned(),
                body: GovTalkBody::MembersDataRequest(
                    proto::members_data::MembersDataRequest {
                        company_number: msg.company_number,
                        company_type: Self::map_company_type(msg.company_type),
                        company_authentication_code: msg.authentication_code,
                    },
                ),
            },
        )
    }
}

impl CHFillingService {
    /// The reply for the registry's answer to a request for the register of members.
    pub fn members_register_reply(
        result: Result<GovTalkResponse, GovTalkErrors>,
    ) -> (r: Result<ch_ewf_grpc::members_data::MembersRegisterResponse, ServiceError>)
        ensures
            match result {
                Err(e) => r matches Err(failure) && failure.is(ErrorCode::Unknown, declined_message(e)),
                Ok(response) => match response.body {
                    Some(GovTalkBody::MembersData(d)) => r matches Ok(reply) && reply.is_from(d),
                    _ => r matches Err(failure) && failure.is(
                        ErrorCode::Internal,
                        "Mismatched response message received"@,
                    ),
                },
            },
    {
        let response = answered(result)?;
        match response.body {
            Some(GovTalkBody::MembersData(d)) => Ok(ch_ewf_grpc::members_data::MembersRegisterResponse::from(d)),
            _ => mismatched(),
        }
    }
}

impl ch_ewf_grpc::charge_search::Charge {
    /// Whether `self` is the reply for the charge `charge`.
    pub open spec fn is_from(self, charge: proto::charge_search::Charge) -> bool {
        &&& self.charge_id == Some(
            match charge.charge_id {
                proto::charge_search::ChargeID::ChargeCode(c) => ch_ewf_grpc::charge_search::ChargeId::ChargeCode(c),
                proto::charge_search::ChargeID::ExistingChargeKey(c) => {
                    ch_ewf_grpc::charge_search::ChargeId::ExistingChargeKey(c)
                },
            },
        )
        &&& self.created_date == Some(charge.creation_date)
        &&& self.acquisition_date == charge.acquisition_date
        &&& self.description == Some(
            match charge.description {
                proto::charge_search::ChargeDescription::ChargeDescription(d) => {
                    ch_ewf_grpc::charge_search::Description::ChargeDescription(d)
                },
                proto::charge_search::ChargeDescription::InstrumentDescription(d) => ch_ewf_grpc::charge_search::Description::InstrumentDescription(
                    ch_ewf_grpc::charge_search::InstrumentDescription {
                        instrument_description: d.instrument_description,
                        short_particulars: d.short_particulars,
                    },
                ),
            },
        )
        &&& self.persons_entitled == charge.persons_entitled
        &&& self.additional_persons_entitled == charge.additional_persons_entitled
    }

    pub fn from(charge: proto::charge_search::Charge) -> (r: Self)
        ensures
            r.is_from(charge),
    {
        ch_ewf_grpc::charge_search::Charge {
            charge_id: Some(
                match charge.charge_id {
                    proto::charge_search::ChargeID::ChargeCode(c) => {
                        ch_ewf_grpc::charge_search::ChargeId::ChargeCode(c)
                    },
                    proto::charge_search::ChargeID::ExistingChargeKey(c) => {
                        ch_ewf_grpc::charge_search::ChargeId::ExistingChargeKey(c)
                    },
                },
            ),
            created_date: Some(charge.creation_date),
            acquisition_date: charge.acquisition_date,
            description: Some(
                match charge.description {
                    proto::charge_search::ChargeDescription::ChargeDescription(d) => {
                        ch_ewf_grpc::charge_search::Description::ChargeDescription(d)
                    },
                    proto::charge_search::ChargeDescription::InstrumentDescription(d) => ch_ewf_grpc::charge_search::Description::InstrumentDescription(
                        ch_ewf_grpc::charge_search::InstrumentDescription {
                            instrument_description: d.instrument_description,
                            short_particulars: d.short_particulars,
                        },
                    ),
                },
            ),
            persons_entitled: charge.persons_entitled,
            additional_persons_entitled: charge.additional_persons_entitled,
        }
    }

    /// Whether `list` holds the replies for the items of `items`, in order.
    pub open spec fn are_from(list: Seq<Self>, items: Seq<proto::charge_search::Charge>) -> bool {
        list.len() == items.len() && forall|i: int| 0 <= i < list.len() ==> (#[trigger] list[i]).is_from(items[i])
    }

    /// The replies for the items, in order.
    pub fn from_all(items: Vec<proto::charge_search::Charge>) -> (r: Vec<Self>)
        ensures
            Self::are_from(r@, items@),
    {
        let mut list: Vec<Self> = Vec::new();
        let ghost all = items@;
        for item in it: items
            invariant
                it.seq() == all,
                list@.len() == it.index(),
                forall|j: int| 0 <= j < it.index() ==> (#[trigger] list@[j]).is_from(all[j]),
        {
            list.push(Self::from(item));
        }
        list
    }
}

/// What one answer to a search for charges comes to.
#[derive(Debug)]
pub enum ChargeSearchStep {
    /// The registry has more: the charges found so far, and the request to send next.
    Continue { charges: Vec<ch_ewf_grpc::charge_search::Charge>, request: Request },
    /// The registry has no more: the reply.
    Finish(ch_ewf_grpc::charge_search::ChargeSearchResponse),
}

/// Whether `request` asks for the charges that `msg` searches for, from the
/// place that `continuation_key` marks, or from the start where it marks none.
pub open spec fn is_charge_search(
    request: Request,
    msg: ch_ewf_grpc::charge_search::ChargeSearchRequest,
    continuation_key: Option<String>,
) -> bool {
    &&& request.class@ == "ChargeSearch"@
    &&& request.body matches GovTalkBody::ChargeSearch(search)
    &&& search.company_number == msg.company_number
    &&& search.company_type == renamed(
        msg.company_type,
        |c: ch_ewf_grpc::base_types::CompanyType| spec_company_type(c),
    )
    &&& search.company_authentication_code@ == msg.authentication_code@
    &&& search.start_date == msg.start_date
    &&& search.end_date == msg.end_date
    &&& search.continuation_key == continuation_key
}

/// Whether `charges` are the charges found before, followed by the replies for those in `found`.
pub open spec fn are_charges_so_far(
    charges: Seq<ch_ewf_grpc::charge_search::Charge>,
    before: Seq<ch_ewf_grpc::charge_search::Charge>,
    found: Seq<proto::charge_search::Charge>,
) -> bool {
    &&& charges.len() == before.len() + found.len()
    &&& charges.subrange(0, before.len() as int) == before
    &&& ch_ewf_grpc::charge_search::Charge::are_from(charges.subrange(before.len() as int, charges.len() as int), found)
}

impl CHFillingService {
    /// The request that a search for charges sends next.
    pub fn charge_search_request(
        msg: &ch_ewf_grpc::charge_search::ChargeSearchRequest,
        continuation_key: Option<String>,
    ) -> (r: Request)
        ensures
            is_charge_search(r, *msg, continuation_key),
    {
        Request {
            class: "ChargeSearch".to_owned(),
            body: GovTalkBody::ChargeSearch(
                proto::charge_search::ChargeSearch {
                    company_number: msg.company_number,
                    company_type: Self::map_company_type(msg.company_type),
                    company_authentication_code: msg.authentication_code.clone(),
                    start_date: msg.start_date,
                    end_date: msg.end_date,
                    continuation_key,
                },
            ),
        }
    }

    /// Checks a search for charges and puts its first request together.
    pub fn charge_search(msg: &ch_ewf_grpc::charge_search::ChargeSearchRequest) -> (r: Result<Request, ServiceError>)
        ensures
            match authentication_code_rejection(msg.authentication_code@) {
                Some(message) => rejected(r, message),
                None => r matches Ok(request) && is_charge_search(request, *msg, None),
            },
    {
        match Self::check_authentication_code(msg.authentication_code.as_str()) {
            Ok(()) => {},
            Err(e) => {
                return Err(e);
            },
        }
        Ok(Self::charge_search_request(msg, None))
    }

    /// Takes one answer to a search for charges: adds what it found to the
    /// charges found before, and goes on where the registry marks a place to
    /// go on from.
    pub fn charge_search_reply(
        msg: &ch_ewf_grpc::charge_search::ChargeSearchRequest,
        charges: Vec<ch_ewf_grpc::charge_search::Charge>,
        result: Result<GovTalkResponse, GovTalkErrors>,
    ) -> (r: Result<ChargeSearchStep, ServiceError>)
        ensures
            match result {
                Err(e) => r matches Err(failure) && failure.is(ErrorCode::Unknown, declined_message(e)),
                Ok(response) => match response.body {
                    Some(GovTalkBody::Charges(d)) => match d.continuation_key {
                        Some(key) => {
                            &&& r matches Ok(ChargeSearchStep::Continue { charges: so_far, request })
                            &&& are_charges_so_far(so_far@, charges@, d.charges@)
                            &&& is_charge_search(request, *msg, Some(key))
                        },
                        None => r matches Ok(ChargeSearchStep::Finish(reply)) && are_charges_so_far(
                            reply.charges@,
                            charges@,
                            d.charges@,
                        ),
                    },
                    _ => r matches Err(failure) && failure.is(
                        ErrorCode::Internal,
                        "Mismatched response message received"@,
                    ),
                },
            },
    {
        let response = answered(result)?;
        let body = match response.body {
            Some(GovTalkBody::Charges(d)) => d,
            _ => {
                return mismatched();
            },
        };
        let mut so_far = charges;
        let mut found = ch_ewf_grpc::charge_search::Charge::from_all(body.charges);
        so_far.append(&mut found);
        assert(so_far@.subrange(0, charges@.len() as int) =~= charges@);
        match body.continuation_key {
            Some(key) => Ok(
                ChargeSearchStep::Continue { charges: so_far, request: Self::charge_search_request(msg, Some(key)) },
            ),
            None => Ok(ChargeSearchStep::Finish(ch_ewf_grpc::charge_search::ChargeSearchResponse { charges: so_far })),
        }
    }
}

} // verus!
