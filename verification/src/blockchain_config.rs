//! Parameter and result records of the blockchain-configuration extraction
//! operation. The extraction itself is a thin pass-through over an external
//! ledger-object library and lives outside the verified core; these records
//! carry its input and output as plain base64 text.

use vstd::prelude::*;

verus! {

/// Input of the blockchain-configuration extraction.
#[derive(Debug, Clone, PartialEq)]
pub struct ParamsOfGetBlockchainConfig {
    /// Key block BOC or zerostate BOC encoded as base64
    pub block_boc: String,
}

/// Output of the blockchain-configuration extraction.
#[derive(Debug, Clone, PartialEq)]
pub struct ResultOfGetBlockchainConfig {
    /// Blockchain config BOC encoded as base64
    pub config_boc: String,
}

impl Default for ParamsOfGetBlockchainConfig {
    fn default() -> (r: Self)
        ensures
            r.block_boc@ == Seq::<char>::empty(),
    {
        ParamsOfGetBlockchainConfig { block_boc: String::new() }
    }
}

impl Default for ResultOfGetBlockchainConfig {
    fn default() -> (r: Self)
        ensures
            r.config_boc@ == Seq::<char>::empty(),
    {
        ResultOfGetBlockchainConfig { config_boc: String::new() }
    }
}

} // verus!
