use vstd::prelude::*;

verus! {

/// Looks up the count of resources of an owner whose `field` equals `value`.
#[derive(Clone, Debug)]
pub struct FindByFieldValueInput {
    pub tenant_id: String,
    pub resource_owner_id: String,
    pub field: String,
    pub value: String,
}

#[derive(Clone, Debug)]
pub struct IncrementInput {
    pub tenant_id: String,
    pub resource_owner_id: String,
    pub field: String,
    pub value: String,
}

#[derive(Clone, Debug)]
pub struct DecrementInput {
    pub tenant_id: String,
    pub resource_owner_id: String,
    pub field: String,
    pub value: String,
}

} // verus!
