//! On the wire: the notification of a person with significant control.

use vstd::prelude::*;

verus! {

#[derive(Clone, Debug)]
pub struct PSCNotification {
    pub notification: super::psc::PSCNotificationType<super::base_types::PersonType2>,
    pub nature_of_control: super::psc::PSCNatureOfControls,
    pub notification_date: crate::time::Date,
    pub register_entry_date: crate::time::Date,
}

} // verus!
