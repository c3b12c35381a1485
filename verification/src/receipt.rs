//! What the chain hands back for a submitted call: the handle to ask with,
//! and the receipt once the call is mined.

use crate::address::{hex_text, Hash256};
use vstd::prelude::*;

verus! {

/// The identifier that the node returns when it takes a call. It is the one
/// key under which the receipt is asked for.
#[derive(Clone, Copy, Debug, PartialEq, Eq)]
pub struct TransactionHandle {
    pub hash: Hash256,
}

impl View for TransactionHandle {
    type V = Seq<u8>;

    open spec fn view(&self) -> Seq<u8> {
        self.hash@
    }
}

/// The proof that a call was included in a block.
#[derive(Clone, Copy, Debug, PartialEq, Eq)]
pub struct Receipt {
    pub transaction_handle: TransactionHandle,
    pub block_hash: Option<Hash256>,
    pub block_number: Option<u64>,
    pub status: Option<u64>,
}

impl Receipt {
    /// The bytes of the block hash, or 32 zero bytes where the receipt names
    /// no block.
    pub open spec fn block_hash_or_zero(self) -> Seq<u8> {
        match self.block_hash {
            Some(hash) => hash@,
            None => Seq::new(32, |i: int| 0u8),
        }
    }

    /// The token that confirms the call to the user: the block hash in
    /// hexadecimal, or the zero hash where the receipt names no block.
    pub fn confirmation_token(&self) -> (r: String)
        ensures
            r@ == hex_text(self.block_hash_or_zero()),
    {
        let hash = match self.block_hash {
            Some(hash) => hash,
            None => Hash256::zero(),
        };
        hash.to_hex_string()
    }
}

} // verus!
