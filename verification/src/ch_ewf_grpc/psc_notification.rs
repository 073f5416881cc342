//! Messages of the service: the notification of a person with significant control.

use vstd::prelude::*;
use crate::time::Date;

verus! {

#[derive(Clone, Debug)]
pub struct PscNotification {
    pub form_submission: Option<super::form_submission::FormSubmission>,
    pub notification: Option<super::psc::Notification>,
    pub nature_of_control: Option<super::psc::NatureOfControls>,
    pub notification_date: Option<Date>,
    pub register_entry_date: Option<Date>,
}

} // verus!
