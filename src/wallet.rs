//! Options of signing in through a wallet.
use vstd::prelude::*;

verus! {

/// What a wallet sign-in asks for, and where the wallet returns to.
pub struct SignInOptions {
    pub contract_id: Option<String>,
    pub method_names: Option<Vec<String>>,
    pub success_url: Option<String>,
    pub failure_url: Option<String>,
}

} // verus!
