//! On the wire: a statement about significant control.

use vstd::prelude::*;

verus! {

#[derive(Clone, Debug)]
pub struct PSCStatementNotification {
    pub notification: super::psc::PSCStatementNotificationType,
    pub register_entry_date: crate::time::Date,
}

} // verus!
