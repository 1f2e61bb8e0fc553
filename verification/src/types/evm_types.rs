use vstd::prelude::*;

verus! {

/// A transaction for a wallet to sign, as the agent proposes it.
#[derive(Debug, PartialEq, Eq)]
pub struct RawTxInput {
    pub chain_id: i64,
    pub to_address: String,
    pub input_bytes: String,
    pub description: Option<String>,
    pub description_short: Option<String>,
}

} // verus!
