//! The bodies of the gateway's requests and of its balance response, as
//! plain values.

use crate::address::Address;
use crate::uint256::{decimal, Uint256};
use vstd::prelude::*;

verus! {

/// The answer to a balance query.
#[derive(Clone, Copy, Debug, PartialEq, Eq)]
pub struct NftBalance {
    pub balance: Uint256,
}

impl NftBalance {
    /// The balance as the decimal text that the response carries.
    pub fn to_decimal_string(&self) -> (r: String)
        ensures
            r@ == decimal(self.balance@),
    {
        self.balance.to_decimal_string()
    }
}

/// The body of a mint request.
#[derive(Clone, PartialEq, Eq)]
pub struct MintResponse {
    pub private_key: String,
    pub account_address: String,
    pub amount: u8,
    pub token_uri: String,
}

/// The body of an approve request.
#[derive(Clone, PartialEq, Eq)]
pub struct ApproveResponse {
    pub private_key: String,
    pub address_to: String,
    pub token_id: Uint256,
}

/// The body of a safe-transfer request.
#[derive(Clone, PartialEq, Eq)]
pub struct TransferFormResponse {
    pub private_key: String,
    pub from: Address,
    pub to: Address,
    pub token_id: Uint256,
}

/// The body of a safe-transfer request with data for the receiver, the data
/// in base64.
#[derive(Clone, PartialEq, Eq)]
pub struct TransferFormDataResponse {
    pub private_key: String,
    pub from: Address,
    pub to: Address,
    pub token_id: Uint256,
    pub data: String,
}

/// The body of a request to approve, or no longer approve, an operator for
/// all tokens.
#[derive(Clone, PartialEq, Eq)]
pub struct SetApprovalForAllResponse {
    pub private_key: String,
    pub operator: Address,
    pub approved: bool,
}

/// The body of a transfer request.
#[derive(Clone, PartialEq, Eq)]
pub struct TransferFromResponse {
    pub private_key: String,
    pub from: Address,
    pub to: Address,
    pub token_id: Uint256,
}

} // verus!
