//! Messages of the service: the addresses that reminders go to.

use vstd::prelude::*;

verus! {

#[derive(Clone, Debug)]
pub struct GetERemindersRequest {
    pub company_number: u32,
    pub company_type: Option<super::base_types::CompanyType>,
    pub authentication_code: String,
}

#[derive(Clone, Debug)]
pub struct SetERemindersRequest {
    pub company_number: u32,
    pub company_type: Option<super::base_types::CompanyType>,
    pub authentication_code: String,
    pub email_addresses: Vec<String>,
}

#[derive(Clone, Debug)]
pub struct EReminderRecipient {
    pub email_address: String,
    pub activated: bool,
}

#[derive(Clone, Debug)]
pub struct EReminders {
    pub recipients: Vec<EReminderRecipient>,
}

} // verus!
