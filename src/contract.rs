//! Options of contract calls.
use vstd::prelude::*;
use crate::json::Json;

verus! {

/// A call of a contract method that changes state.
pub struct ChangeMethodOptions {
    pub args: Json,
    pub method_name: String,
    pub gas: Option<u128>,
    pub amount: Option<u128>,
    pub meta: String,
    pub callback_url: Option<String>,
}

/// The methods that a contract offers.
pub struct ContractMethods {
    pub change_methods: Vec<String>,
    pub view_methods: Vec<String>,
}

} // verus!
