//! On the wire: a change of name.

use vstd::prelude::*;

verus! {

#[derive(Clone, Debug)]
pub struct ChangeOfName {
    pub method_of_change: MethodOfChange,
    pub proposed_company_name: String,
    pub meeting_date: Option<crate::time::Date>,
    pub same_day: bool,
    pub notice_given: bool,
}

#[derive(Clone, Copy, Debug, PartialEq, Eq, Structural)]
pub enum MethodOfChange {
    Articles,
    Resolution,
    Llp
}

} // verus!
