//! The wire payloads: the envelope and the business bodies it carries, and
//! how dates and times are read from and written to the wire.

use vstd::prelude::*;
use crate::outside::{
    date_text, format_date, formatted_date, formatted_datetime, london_date_is_single, london_date_single,
    parse_date_with, parse_datetime_with, parse_rfc3339, rfc3339_datetime,
};
use crate::time::{Date, Timestamp};

pub mod accounting_reference_date;
pub mod base_types;
pub mod change_of_location;
pub mod change_of_name;
pub mod change_registered_office;
pub mod charge_registration;
pub mod charge_search;
pub mod charge_update;
pub mod company_data;
pub mod company_incorporation;
pub mod confirmation_statement;
pub mod corporation_tax_information;
pub mod document;
pub mod e_reminders;
pub mod form_submission;
pub mod govtalk;
pub mod increase_nominal_capital;
pub mod members_data;
pub mod members_register;
pub mod members_register_update;
pub mod officer_appointment;
pub mod officer_change;
pub mod officer_resignation;
pub mod payment_periods;
pub mod psc;
pub mod psc_cessation;
pub mod psc_change_details;
pub mod psc_notification;
pub mod psc_statement_notification;
pub mod psc_statement_withdrawal;
pub mod register;
pub mod register_elect_or_withdraw;
pub mod return_allotment_shares;
pub mod sail_address;
pub mod submission_status;

verus! {

/// The format of a date on the wire.
pub const DATE_FORMAT: &'static str = "%Y-%m-%d";

/// The format of a time without an offset and with a fraction of a second.
pub const DATETIME_FORMAT_FRACTION: &'static str = "%FT%T%.f";

/// The format of a time without an offset and without a fraction.
pub const DATETIME_FORMAT_PLAIN: &'static str = "%FT%T";

/// Whether a flag is off, which is when it is left out on the wire.
pub fn is_false(b: &bool) -> (r: bool)
    ensures
        r == !*b,
{
    !(*b)
}

/// Reads a time from the wire.
pub struct DateTimeVisitor;

/// Reads a date from the wire.
pub struct DateVisitor;

/// What a time on the wire reads as: the instant it gives as RFC 3339, or
/// else as a time without an offset with a fraction of a second, or else
/// without; the last attempt's error where none fits.
pub open spec fn spec_visit_datetime(value: Seq<char>) -> Result<Timestamp, Seq<char>> {
    match rfc3339_datetime(value) {
        Some(t) => Ok(t),
        None => match formatted_datetime(value, DATETIME_FORMAT_FRACTION@) {
            Ok(t) => Ok(t),
            Err(_) => formatted_datetime(value, DATETIME_FORMAT_PLAIN@),
        },
    }
}

/// What a date on the wire reads as: the date written as year, month and
/// day, provided that it is one local date in London.
pub open spec fn spec_visit_date(value: Seq<char>) -> Result<Date, Seq<char>> {
    match formatted_date(value, DATE_FORMAT@) {
        Ok(d) => if london_date_is_single(d.days_from_ce) {
            Ok(d)
        } else {
            Err("invalid date"@)
        },
        Err(e) => Err(e),
    }
}

/// `r` with its texts taken as plain values.
pub open spec fn plain<T>(r: Result<T, String>) -> Result<T, Seq<char>> {
    match r {
        Ok(v) => Ok(v),
        Err(e) => Err(e@),
    }
}

impl DateTimeVisitor {
    /// Reads a time.
    pub fn visit_str(self, value: &str) -> (r: Result<Timestamp, String>)
        ensures
            plain(r) == spec_visit_datetime(value@),
    {
        match parse_rfc3339(value) {
            Some(t) => Ok(t),
            None => match parse_datetime_with(value, DATETIME_FORMAT_FRACTION) {
                Ok(t) => Ok(t),
                Err(_) => parse_datetime_with(value, DATETIME_FORMAT_PLAIN),
            },
        }
    }
}

impl DateVisitor {
    /// Reads a date.
    pub fn visit_str(self, value: &str) -> (r: Result<Date, String>)
        ensures
            plain(r) == spec_visit_date(value@),
    {
        match parse_date_with(value, DATE_FORMAT) {
            Ok(d) => {
                if london_date_single(d) {
                    Ok(d)
                } else {
                    Err("invalid date".to_owned())
                }
            },
            Err(e) => Err(e),
        }
    }
}

/// A time as read, with the gateway's "no time given" taken as none.
pub fn deserialize_datetime_opt(date: Option<Timestamp>) -> (r: Option<Timestamp>)
    ensures
        r == (match date {
            Some(d) => if d.spec_is_unset() {
                None
            } else {
                Some(d)
            },
            None => None,
        }),
{
    match date {
        Some(d) => {
            if d.is_unset() {
                None
            } else {
                Some(d)
            }
        },
        None => None,
    }
}

/// A date as read, with the gateway's "no date given" taken as none.
pub fn deserialize_date_opt(date: Option<Date>) -> (r: Option<Date>)
    ensures
        r == (match date {
            Some(d) => if d.spec_is_unset() {
                None
            } else {
                Some(d)
            },
            None => None,
        }),
{
    match date {
        Some(d) => {
            if d.is_unset() {
                None
            } else {
                Some(d)
            }
        },
        None => None,
    }
}

/// A date as written to the wire: year, month and day. Nothing where the calendar cannot hold it.
pub fn serialize_date(d: &Date) -> (r: Option<String>)
    ensures
        date_text(d.days_from_ce, DATE_FORMAT@) == (match r {
            Some(text) => Some(text@),
            None => None,
        }),
{
    format_date(*d, DATE_FORMAT)
}

/// A date that may be missing as written to the wire: nothing to write
/// where it is missing, else as `serialize_date` has it.
pub fn serialize_date_opt(d: &Option<Date>) -> (r: Option<Option<String>>)
    ensures
        match d {
            Some(date) => r matches Some(written) && date_text(date.days_from_ce, DATE_FORMAT@) == (
            match written {
                Some(text) => Some(text@),
                None => None,
            }),
            None => r is None,
        },
{
    match d {
        Some(date) => Some(serialize_date(date)),
        None => None,
    }
}

} // verus!
