//! Structured transaction records.
//!
//! Inputs and outputs keep source order; their indexes are semantically
//! meaningful. Script fields, when present, hold whitespace-separated
//! disassembly with opcodes rendered as `OP_<NAME>`; witness elements are
//! hex strings with no `0x` prefix.

use vstd::prelude::*;

verus! {

/// Confirmation status of a transaction.
#[derive(Clone, Debug)]
pub struct ApiStatus {
    pub confirmed: bool,
    pub block_height: Option<u32>,
    pub block_hash: Option<String>,
    pub block_time: Option<u64>,
}

/// A transaction output.
#[derive(Clone, Debug)]
pub struct ApiVout {
    pub scriptpubkey: String,
    pub scriptpubkey_asm: String,
    /// Free-form type tag; only the exact literal `"v0_p2wsh"` is
    /// semantically meaningful to the analyzers.
    pub scriptpubkey_type: String,
    pub scriptpubkey_address: Option<String>,
    /// Value in satoshis.
    pub value: u64,
}

/// A transaction input.
#[derive(Clone, Debug)]
pub struct ApiVin {
    /// Previous txid; absent for coinbase inputs.
    pub txid: Option<String>,
    /// Previous output index; absent for coinbase inputs.
    pub vout: Option<u32>,
    /// The previous output being spent, when the source provides it.
    pub prevout: Option<ApiVout>,
    pub scriptsig: Option<String>,
    pub scriptsig_asm: Option<String>,
    /// P2SH redeem-script disassembly.
    pub inner_redeemscript_asm: Option<String>,
    /// P2WSH witness-script disassembly.
    pub inner_witnessscript_asm: Option<String>,
    /// The witness stack, bottom-first, as hex strings.
    pub witness: Option<Vec<String>>,
    pub is_coinbase: bool,
    pub sequence: u32,
}

/// A confirmed transaction.
#[derive(Clone, Debug)]
pub struct ApiTransaction {
    pub txid: String,
    pub version: i32,
    pub locktime: u32,
    pub vin: Vec<ApiVin>,
    pub vout: Vec<ApiVout>,
    pub size: u32,
    pub weight: u32,
    pub fee: Option<u64>,
    pub status: ApiStatus,
}

} // verus!
