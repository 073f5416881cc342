//! The messages of the filing service: what a caller sends and what it gets
//! back, as plain values.
//!
//! A choice among named values is held as the value itself, or as nothing
//! where the number on the wire names none. A point in time is held as the
//! instant or the date it stands for, or as nothing where it is missing or
//! names no instant.

use vstd::prelude::*;

pub mod accounting_reference_date;
pub mod base_types;
pub mod change_of_location;
pub mod change_of_name;
pub mod change_registered_office;
pub mod charge_registration;
pub mod charge_search;
pub mod charge_update;
pub mod company_data;
pub mod company_incorporation;
pub mod confirmation_statement;
pub mod e_reminders;
pub mod form_submission;
pub mod members_data;
pub mod members_register;
pub mod members_register_update;
pub mod officer_appointment;
pub mod officer_change;
pub mod officer_resignation;
pub mod payment_periods;
pub mod psc;
pub mod psc_cessation;
pub mod psc_change_details;
pub mod psc_notification;
pub mod psc_statement_notification;
pub mod psc_statement_withdrawal;
pub mod register_elect_or_withdraw;
pub mod return_allotment_shares;
pub mod sail_address;

verus! {

/// A point in time as the service's own wire carries it: seconds since the
/// Unix epoch and nanoseconds within the second. The messages here hold what
/// it stands for; `proto_to_chrono` and `chrono_to_proto` go between the two.
#[derive(Clone, Copy, Debug, PartialEq, Eq, Structural)]
pub struct Timestamp {
    pub seconds: i64,
    pub nanos: i32,
}

} // verus!
