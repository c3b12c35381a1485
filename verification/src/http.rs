//! The request gateway without its transport: from the body of a request to
//! the contract call, and from the outcome of the call to the response.

use crate::address::{hex_address, hex_text, hex_text_tells_the_bytes, Address};
use crate::catalog::Operation;
use crate::config::Config;
use crate::error::GatewayError;
use crate::eth::{
    approve, get_balance, mint, safe_transfer_from, safe_transfer_from_with_data,
    set_approval_for_all, transfer_from, Call, OperationDescriptor, ParameterValue, SignerValue,
};
use crate::executor::Outcome;
use crate::receipt::Receipt;
use crate::types::{
    ApproveResponse, MintResponse, SetApprovalForAllResponse, TransferFormDataResponse,
    TransferFormResponse, TransferFromResponse,
};
use crate::uint256::decimal;
use vstd::prelude::*;
use vstd::utf8::valid_utf8;

verus! {

/// What `base64::decode` makes of a text: the bytes it decodes to, or `None`
/// where it reports an error.
pub uninterp spec fn base64_decoded(text: Seq<char>) -> Option<Seq<u8>>;

/// Calls `base64::decode`, the standard alphabet with padding. The result is
/// the named decoding of the text: its bytes on success, `None` on any
/// decoding error.
#[verifier::external_body]
fn base64_decode(text: &str) -> (r: Option<Vec<u8>>)
    ensures
        match r {
            Some(bytes) => base64_decoded(text@) == Some(bytes@),
            None => base64_decoded(text@) is None,
        },
{
    match base64::decode(text) {
        Ok(bytes) => Some(bytes),
        Err(_) => None,
    }
}

/// Calls `std::str::from_utf8` and says whether it took the bytes: it does
/// exactly where they are well-formed UTF-8.
#[verifier::external_body]
fn is_utf8(bytes: &[u8]) -> (r: bool)
    ensures
        r == valid_utf8(bytes@),
{
    match std::str::from_utf8(bytes) {
        Ok(_) => true,
        Err(_) => false,
    }
}

/// The data that a decoded text hands to the receiver: the decoded bytes,
/// where there are some and they are UTF-8.
pub open spec fn accepted_data(decoded: Option<Seq<u8>>) -> Option<Seq<u8>> {
    match decoded {
        Some(bytes) => if valid_utf8(bytes) {
            Some(bytes)
        } else {
            None
        },
        None => None,
    }
}

/// Checks what the base64 decoding returned: the bytes pass where they are
/// UTF-8; anything else is a `DecodingError`.
pub fn checked_data(decoded: Option<Vec<u8>>) -> (r: Result<Vec<u8>, GatewayError>)
    ensures
        match accepted_data(
            match decoded {
                Some(bytes) => Some(bytes@),
                None => None,
            },
        ) {
            Some(bytes) => r matches Ok(data) && data@ == bytes,
            None => r matches Err(e) && e == GatewayError::DecodingError,
        },
{
    match decoded {
        Some(bytes) => {
            if is_utf8(bytes.as_slice()) {
                Ok(bytes)
            } else {
                Err(GatewayError::DecodingError)
            }
        },
        None => Err(GatewayError::DecodingError),
    }
}

/// Reads the data field of a transfer request: base64 of UTF-8 text.
pub fn decode_data(data: &str) -> (r: Result<Vec<u8>, GatewayError>)
    ensures
        match accepted_data(base64_decoded(data@)) {
            Some(bytes) => r matches Ok(decoded) && decoded@ == bytes,
            None => r matches Err(e) && e == GatewayError::DecodingError,
        },
{
    checked_data(base64_decode(data))
}

/// The call of a balance request.
pub fn nft_balance(config: &Config, address: &str) -> (r: Result<OperationDescriptor, GatewayError>)
    ensures
        match (hex_address(config.contract_address@), hex_address(address@)) {
            (Some(contract), Some(owner)) => r matches Ok(call) && call@ == (Call {
                operation: Operation::BalanceOf,
                parameters: seq![ParameterValue::Address(owner)],
                contract_address: contract,
                signer: None,
            }),
            _ => r matches Err(e) && e == GatewayError::InvalidAddress,
        },
{
    get_balance(config, address)
}

/// The call of a mint request: to the configured contract, from the
/// configured account, signed with the key of the request. It is refused
/// with `InvalidAddress` where one of the three address texts is none.
pub fn nft_mint(config: &Config, data: &MintResponse) -> (r: Result<
    OperationDescriptor,
    GatewayError,
>)
    ensures
        match (
            hex_address(config.contract_address@),
            hex_address(data.account_address@),
            hex_address(config.account_address@),
        ) {
            (Some(contract), Some(user), Some(account)) => r matches Ok(call) && call@ == (Call {
                operation: Operation::Mint,
                parameters: seq![
                    ParameterValue::Address(user),
                    ParameterValue::Text(data.token_uri@),
                    ParameterValue::Uint8(data.amount),
                ],
                contract_address: contract,
                signer: Some(SignerValue { sender: account, credential: data.private_key@ }),
            }),
            _ => r matches Err(e) && e == GatewayError::InvalidAddress,
        },
{
    let contract_address = match config.get_contract_address() {
        Ok(a) => a,
        Err(e) => {
            return Err(e);
        },
    };
    let user_address = match Address::parse(data.account_address.as_str()) {
        Ok(a) => a,
        Err(e) => {
            return Err(e);
        },
    };
    let my_address = match config.get_my_account() {
        Ok(a) => a,
        Err(e) => {
            return Err(e);
        },
    };
    Ok(
        mint(
            contract_address,
            user_address,
            my_address,
            data.private_key.as_str(),
            data.token_uri.as_str(),
            data.amount,
        ),
    )
}

/// The call of an approve request.
pub fn nft_approve(config: &Config, data: &ApproveResponse) -> (r: Result<
    OperationDescriptor,
    GatewayError,
>)
    ensures
        match (
            hex_address(config.contract_address@),
            hex_address(config.account_address@),
            hex_address(data.address_to@),
        ) {
            (Some(contract), Some(account), Some(to)) => r matches Ok(call) && call@ == (Call {
                operation: Operation::Approve,
                parameters: seq![
                    ParameterValue::Address(to),
                    ParameterValue::Uint256(data.token_id@),
                ],
                contract_address: contract,
                signer: Some(SignerValue { sender: account, credential: data.private_key@ }),
            }),
            _ => r matches Err(e) && e == GatewayError::InvalidAddress,
        },
{
    let contract_address = match config.get_contract_address() {
        Ok(a) => a,
        Err(e) => {
            return Err(e);
        },
    };
    let my_address = match config.get_my_account() {
        Ok(a) => a,
        Err(e) => {
            return Err(e);
        },
    };
    let address_to = match Address::parse(data.address_to.as_str()) {
        Ok(a) => a,
        Err(e) => {
            return Err(e);
        },
    };
    Ok(approve(contract_address, my_address, data.private_key.as_str(), address_to, data.token_id))
}

/// The configured contract and account, where both texts are addresses.
fn configured(config: &Config) -> (r: Result<(Address, Address), GatewayError>)
    ensures
        match (hex_address(config.contract_address@), hex_address(config.account_address@)) {
            (Some(contract), Some(account)) => r matches Ok(pair) && pair.0@ == contract && pair.1@
                == account,
            _ => r matches Err(e) && e == GatewayError::InvalidAddress,
        },
{
    let contract_address = match config.get_contract_address() {
        Ok(a) => a,
        Err(e) => {
            return Err(e);
        },
    };
    let my_address = match config.get_my_account() {
        Ok(a) => a,
        Err(e) => {
            return Err(e);
        },
    };
    Ok((contract_address, my_address))
}

/// The call of a safe-transfer request.
pub fn nft_safe_transfer_from(config: &Config, data: &TransferFormResponse) -> (r: Result<
    OperationDescriptor,
    GatewayError,
>)
    ensures
        match (hex_address(config.contract_address@), hex_address(config.account_address@)) {
            (Some(contract), Some(account)) => r matches Ok(call) && call@ == (Call {
                operation: Operation::SafeTransferFrom,
                parameters: seq![
                    ParameterValue::Address(data.from@),
                    ParameterValue::Address(data.to@),
                    ParameterValue::Uint256(data.token_id@),
                ],
                contract_address: contract,
                signer: Some(SignerValue { sender: account, credential: data.private_key@ }),
            }),
            _ => r matches Err(e) && e == GatewayError::InvalidAddress,
        },
{
    match configured(config) {
        Ok((contract_address, my_address)) => Ok(
            safe_transfer_from(
                contract_address,
                my_address,
                data.private_key.as_str(),
                data.from,
                data.to,
                data.token_id,
            ),
        ),
        Err(e) => Err(e),
    }
}

/// The call of a safe-transfer request with data. The data field is base64
/// of UTF-8 text; where it is not, the request is refused with
/// `DecodingError` and there is no call.
pub fn nft_safe_transfer_from_data(config: &Config, data: &TransferFormDataResponse) -> (r: Result<
    OperationDescriptor,
    GatewayError,
>)
    ensures
        match (hex_address(config.contract_address@), hex_address(config.account_address@)) {
            (Some(contract), Some(account)) => match accepted_data(base64_decoded(data.data@)) {
                Some(bytes) => r matches Ok(call) && call@ == (Call {
                    operation: Operation::SafeTransferFromWithData,
                    parameters: seq![
                        ParameterValue::Address(data.from@),
                        ParameterValue::Address(data.to@),
                        ParameterValue::Uint256(data.token_id@),
                        ParameterValue::Bytes(bytes),
                    ],
                    contract_address: contract,
                    signer: Some(SignerValue { sender: account, credential: data.private_key@ }),
                }),
                None => r matches Err(e) && e == GatewayError::DecodingError,
            },
            _ => r matches Err(e) && e == GatewayError::InvalidAddress,
        },
{
    let (contract_address, my_address) = match configured(config) {
        Ok(pair) => pair,
        Err(e) => {
            return Err(e);
        },
    };
    let decoded = match decode_data(data.data.as_str()) {
        Ok(bytes) => bytes,
        Err(e) => {
            return Err(e);
        },
    };
    Ok(
        safe_transfer_from_with_data(
            contract_address,
            my_address,
            data.private_key.as_str(),
            data.from,
            data.to,
            data.token_id,
            decoded,
        ),
    )
}

/// The call of a request to approve an operator for all tokens, or to end
/// that.
pub fn nft_set_approval_for_all(config: &Config, data: &SetApprovalForAllResponse) -> (r: Result<
    OperationDescriptor,
    GatewayError,
>)
    ensures
        match (hex_address(config.contract_address@), hex_address(config.account_address@)) {
            (Some(contract), Some(account)) => r matches Ok(call) && call@ == (Call {
                operation: Operation::SetApprovalForAll,
                parameters: seq![
                    ParameterValue::Address(data.operator@),
                    ParameterValue::Bool(data.approved),
                ],
                contract_address: contract,
                signer: Some(SignerValue { sender: account, credential: data.private_key@ }),
            }),
            _ => r matches Err(e) && e == GatewayError::InvalidAddress,
        },
{
    match configured(config) {
        Ok((contract_address, my_address)) => Ok(
            set_approval_for_all(
                contract_address,
                my_address,
                data.private_key.as_str(),
                data.operator,
                data.approved,
            ),
        ),
        Err(e) => Err(e),
    }
}

/// The call of a transfer request.
pub fn nft_transfer_from(config: &Config, data: &TransferFromResponse) -> (r: Result<
    OperationDescriptor,
    GatewayError,
>)
    ensures
        match (hex_address(config.contract_address@), hex_address(config.account_address@)) {
            (Some(contract), Some(account)) => r matches Ok(call) && call@ == (Call {
                operation: Operation::TransferFrom,
                parameters: seq![
                    ParameterValue::Address(data.from@),
                    ParameterValue::Address(data.to@),
                    ParameterValue::Uint256(data.token_id@),
                ],
                contract_address: contract,
                signer: Some(SignerValue { sender: account, credential: data.private_key@ }),
            }),
            _ => r matches Err(e) && e == GatewayError::InvalidAddress,
        },
{
    match configured(config) {
        Ok((contract_address, my_address)) => Ok(
            transfer_from(
                contract_address,
                my_address,
                data.private_key.as_str(),
                data.from,
                data.to,
                data.token_id,
            ),
        ),
        Err(e) => Err(e),
    }
}

/// The text that an outcome puts into the response.
pub open spec fn payload_of(outcome: Outcome) -> Result<Seq<char>, GatewayError> {
    match outcome {
        Outcome::Confirmed(receipt) => Ok(hex_text(receipt.block_hash_or_zero())),
        Outcome::Balance(balance) => Ok(decimal(balance@)),
        Outcome::Failed(reason) => Err(GatewayError::Failed(reason)),
    }
}

/// The payload of a confirmed call tells the block: receipts of different
/// blocks never share one.
pub proof fn payload_tells_the_block(one: Receipt, other: Receipt)
    requires
        payload_of(Outcome::Confirmed(one)) == payload_of(Outcome::Confirmed(other)),
    ensures
        one.block_hash_or_zero() == other.block_hash_or_zero(),
{
    hex_text_tells_the_bytes(one.block_hash_or_zero(), other.block_hash_or_zero());
}

/// What the response to a request carries: for a confirmed call the block
/// hash in hexadecimal, for a query the balance in decimal, and for a failed
/// execution its reason as an error.
pub fn payload(outcome: &Outcome) -> (r: Result<String, GatewayError>)
    ensures
        match payload_of(*outcome) {
            Ok(text) => r matches Ok(s) && s@ == text,
            Err(error) => r matches Err(e) && e == error,
        },
{
    match outcome {
        Outcome::Confirmed(receipt) => Ok(receipt.confirmation_token()),
        Outcome::Balance(balance) => Ok(balance.to_decimal_string()),
        Outcome::Failed(reason) => Err(GatewayError::Failed(*reason)),
    }
}

/// The HTTP status of a response: 200 with a payload, 500 for every error,
/// of whatever kind.
pub fn status_code(response: &Result<String, GatewayError>) -> (r: u16)
    ensures
        r == if response is Ok { 200u16 } else { 500u16 },
{
    match response {
        Ok(_) => 200,
        Err(_) => 500,
    }
}

} // verus!
