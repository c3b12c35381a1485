//! The gateway's configuration: the node's API key, the contract and the
//! operator's account. It is built once and then only read.

use crate::address::{hex_address, Address};
use crate::error::GatewayError;
use vstd::prelude::*;
use vstd::string::*;

verus! {

/// The configuration values, as they are written down.
#[derive(Clone, PartialEq, Eq)]
pub struct Config {
    pub infura_apikey: String,
    pub contract_address: String,
    pub account_address: String,
    pub private_key: String,
}

impl Default for Config {
    /// The configuration before anything is loaded: each value is its own
    /// name.
    fn default() -> (r: Config)
        ensures
            r.infura_apikey@ == "infura_apikey"@,
            r.contract_address@ == "contract_address"@,
            r.account_address@ == "account_address"@,
            r.private_key@ == "private_key"@,
    {
        Config {
            infura_apikey: String::from_str("infura_apikey"),
            contract_address: String::from_str("contract_address"),
            account_address: String::from_str("account_address"),
            private_key: String::from_str("private_key"),
        }
    }
}

impl Config {
    /// The URL of the node for an API key.
    pub open spec fn endpoint_of(key: Seq<char>) -> Seq<char> {
        "https://goerli.infura.io/v3/"@ + key
    }

    /// The node's API key.
    pub fn get_infura_apikey(&self) -> (r: String)
        ensures
            r@ == self.infura_apikey@,
    {
        self.infura_apikey.clone()
    }

    /// The URL of the node: the fixed prefix, then the API key.
    pub fn get_endpoint(&self) -> (r: String)
        ensures
            r@ == Config::endpoint_of(self.infura_apikey@),
    {
        String::from_str("https://goerli.infura.io/v3/").concat(self.infura_apikey.as_str())
    }

    /// The address of the NFT contract, where the configured text is one.
    pub fn get_contract_address(&self) -> (r: Result<Address, GatewayError>)
        ensures
            match r {
                Ok(address) => hex_address(self.contract_address@) == Some(address@),
                Err(e) => e == GatewayError::InvalidAddress && hex_address(
                    self.contract_address@,
                ) is None,
            },
    {
        Address::parse(self.contract_address.as_str())
    }

    /// The configuration in use: the one that the caller holds.
    pub fn get_instance(&self) -> (r: &Config)
        ensures
            r == self,
    {
        self
    }

    /// The operator's account, where the configured text is an address.
    pub fn get_my_account(&self) -> (r: Result<Address, GatewayError>)
        ensures
            match r {
                Ok(address) => hex_address(self.account_address@) == Some(address@),
                Err(e) => e == GatewayError::InvalidAddress && hex_address(
                    self.account_address@,
                ) is None,
            },
    {
        Address::parse(self.account_address.as_str())
    }

    /// The operator's private key.
    pub fn get_my_private_key(&self) -> (r: String)
        ensures
            r@ == self.private_key@,
    {
        self.private_key.clone()
    }
}

} // verus!
