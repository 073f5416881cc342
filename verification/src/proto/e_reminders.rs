//! On the wire: the addresses that reminders go to.

use vstd::prelude::*;

verus! {

#[derive(Clone, Debug)]
pub struct GetERemindersRequest {
    pub company_number: u32,
    pub company_type: Option<super::base_types::CompanyType>,
    pub company_authentication_code: String,
}

#[derive(Clone, Debug)]
pub struct SetERemindersRequest {
    pub company_number: u32,
    pub company_type: Option<super::base_types::CompanyType>,
    pub company_authentication_code: String,
    pub emails: Vec<String>,
}

#[derive(Clone, Debug)]
pub struct EReminders {
    pub recipients: Vec<Recipient>
}

#[derive(Clone, Debug)]
pub struct Recipient {
    pub email: String,
    pub activated: bool,
}

} // verus!
