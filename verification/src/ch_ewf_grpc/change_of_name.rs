//! Messages of the service: a change of name.

use vstd::prelude::*;
use crate::proto::change_of_name::MethodOfChange;
use crate::time::Date;

verus! {

#[derive(Clone, Debug)]
pub struct ChangeOfName {
    pub form_submission: Option<super::form_submission::FormSubmission>,
    pub proposed_name: String,
    pub notice_given: bool,
    pub method_of_change: Option<MethodOfChange>,
    pub meeting_date: Option<Date>,
    pub same_day: bool,
}

} // verus!
