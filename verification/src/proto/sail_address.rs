//! On the wire: the address at which records can be inspected.

use vstd::prelude::*;

verus! {

#[derive(Clone, Debug)]
pub struct SAILAddress {
    pub address: super::base_types::UKAddress
}

} // verus!
