//! On the wire: a change of where records are kept.

use vstd::prelude::*;

verus! {

#[derive(Clone, Debug)]
pub enum RecordChangeOfLocation {
    MoveToSAILAddress(MoveToSAILAddress),
    MoveToRegisteredOffice(MoveToRegisteredOffice)
}

#[derive(Clone, Debug)]
pub struct MoveToSAILAddress {
    pub move_to_sail_address: bool,
    pub register_list: Vec<Register>
}

#[derive(Clone, Debug)]
pub struct MoveToRegisteredOffice {
    pub move_to_registered_office: bool,
    pub move_type: MoveToRegisteredOfficeType,
}

#[derive(Clone, Debug)]
pub enum MoveToRegisteredOfficeType {
    All(bool),
    Listed(Vec<Register>)
}

#[derive(Clone, Debug)]
pub struct Register {
    pub register_type: super::base_types::RecordType
}

} // verus!
