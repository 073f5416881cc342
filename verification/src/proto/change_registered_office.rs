//! On the wire: a change of the registered office.

use vstd::prelude::*;

verus! {

#[derive(Clone, Debug)]
pub struct ChangeRegisteredOfficeAddress {
    pub address: super::base_types::UKAddress
}

} // verus!
