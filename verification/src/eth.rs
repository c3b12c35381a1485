//! Contract calls as values: the typed arguments, the signer and the
//! operation descriptor that the executor works on, with one constructor for
//! each action of the catalog.

use crate::address::{hex_address, Address};
use crate::catalog::{Operation, ParameterKind};
use crate::config::Config;
use crate::error::GatewayError;
use crate::uint256::Uint256;
use vstd::prelude::*;
use vstd::string::*;

verus! {

/// One typed argument of a contract call.
#[derive(Clone, Debug, PartialEq, Eq)]
pub enum Parameter {
    Address(Address),
    Text(String),
    Uint8(u8),
    Uint256(Uint256),
    Bool(bool),
    Bytes(Vec<u8>),
}

/// What a `Parameter` stands for.
pub enum ParameterValue {
    Address(Seq<u8>),
    Text(Seq<char>),
    Uint8(u8),
    Uint256(nat),
    Bool(bool),
    Bytes(Seq<u8>),
}

impl ParameterValue {
    /// The type of the argument.
    pub open spec fn kind(self) -> ParameterKind {
        match self {
            ParameterValue::Address(_) => ParameterKind::Address,
            ParameterValue::Text(_) => ParameterKind::Text,
            ParameterValue::Uint8(_) => ParameterKind::Uint8,
            ParameterValue::Uint256(_) => ParameterKind::Uint256,
            ParameterValue::Bool(_) => ParameterKind::Bool,
            ParameterValue::Bytes(_) => ParameterKind::Bytes,
        }
    }
}

impl View for Parameter {
    type V = ParameterValue;

    open spec fn view(&self) -> ParameterValue {
        match self {
            Parameter::Address(a) => ParameterValue::Address(a@),
            Parameter::Text(s) => ParameterValue::Text(s@),
            Parameter::Uint8(n) => ParameterValue::Uint8(*n),
            Parameter::Uint256(n) => ParameterValue::Uint256(n@),
            Parameter::Bool(b) => ParameterValue::Bool(*b),
            Parameter::Bytes(b) => ParameterValue::Bytes(b@),
        }
    }
}

impl Parameter {
    /// The type of the argument.
    pub fn kind(&self) -> (r: ParameterKind)
        ensures
            r == self@.kind(),
    {
        match self {
            Parameter::Address(_) => ParameterKind::Address,
            Parameter::Text(_) => ParameterKind::Text,
            Parameter::Uint8(_) => ParameterKind::Uint8,
            Parameter::Uint256(_) => ParameterKind::Uint256,
            Parameter::Bool(_) => ParameterKind::Bool,
            Parameter::Bytes(_) => ParameterKind::Bytes,
        }
    }
}

/// The values of a list of arguments, in order.
pub open spec fn values_of(parameters: Seq<Parameter>) -> Seq<ParameterValue> {
    parameters.map_values(|p: Parameter| p@)
}

/// The types of a list of argument values, in order.
pub open spec fn kinds_of(values: Seq<ParameterValue>) -> Seq<ParameterKind> {
    values.map_values(|v: ParameterValue| v.kind())
}

/// The secret that unlocks the sender's account. It has no `Debug`, so that
/// nothing that holds one can be printed.
#[derive(Clone, PartialEq, Eq)]
pub struct Credential {
    secret: String,
}

impl View for Credential {
    type V = Seq<char>;

    closed spec fn view(&self) -> Seq<char> {
        self.secret@
    }
}

impl Credential {
    /// Takes a private key as the credential.
    pub fn new(secret: &str) -> (r: Credential)
        ensures
            r@ == secret@,
    {
        Credential { secret: String::from_str(secret) }
    }

    /// Hands the secret to the one who signs with it.
    pub fn expose(&self) -> (r: &str)
        ensures
            r@ == self@,
    {
        self.secret.as_str()
    }
}

/// Who signs a state-changing call, and with what.
#[derive(Clone, PartialEq, Eq)]
pub struct Signer {
    pub sender: Address,
    pub credential: Credential,
}

/// What a `Signer` stands for.
pub struct SignerValue {
    pub sender: Seq<u8>,
    pub credential: Seq<char>,
}

impl View for Signer {
    type V = SignerValue;

    open spec fn view(&self) -> SignerValue {
        SignerValue { sender: self.sender@, credential: self.credential@ }
    }
}

/// What an `OperationDescriptor` stands for: which contract method, with
/// which arguments, signed by whom.
pub struct Call {
    pub operation: Operation,
    pub parameters: Seq<ParameterValue>,
    pub contract_address: Seq<u8>,
    pub signer: Option<SignerValue>,
}

impl Call {
    /// The name of the contract method that is called.
    pub open spec fn method(self) -> Seq<char> {
        self.operation.method_of()
    }

    /// The arguments have the shape that the catalog gives the operation,
    /// and there is a signer exactly where the operation changes state.
    pub open spec fn well_formed(self) -> bool {
        &&& kinds_of(self.parameters) == self.operation.shape()
        &&& self.signer is Some <==> self.operation.mutating()
    }
}

/// One contract call, built once for a request and never changed.
#[derive(PartialEq, Eq)]
pub struct OperationDescriptor {
    operation: Operation,
    parameters: Vec<Parameter>,
    contract_address: Address,
    signer: Option<Signer>,
}

impl View for OperationDescriptor {
    type V = Call;

    closed spec fn view(&self) -> Call {
        Call {
            operation: self.operation,
            parameters: values_of(self.parameters@),
            contract_address: self.contract_address@,
            signer: match self.signer {
                Some(s) => Some(s@),
                None => None,
            },
        }
    }
}

impl OperationDescriptor {
    #[verifier::type_invariant]
    spec fn inv(self) -> bool {
        self@.well_formed()
    }

    /// The action of the catalog that the call performs.
    pub fn operation(&self) -> (r: Operation)
        ensures
            r == self@.operation,
            self@.well_formed(),
    {
        proof {
            use_type_invariant(self);
        }
        self.operation
    }

    /// The name of the contract method.
    pub fn method(&self) -> (r: &'static str)
        ensures
            r@ == self@.method(),
    {
        self.operation.method()
    }

    /// The arguments, in the order of the call.
    pub fn parameters(&self) -> (r: &Vec<Parameter>)
        ensures
            values_of(r@) == self@.parameters,
            kinds_of(self@.parameters) == self@.operation.shape(),
    {
        proof {
            use_type_invariant(self);
        }
        &self.parameters
    }

    /// The contract that is called.
    pub fn contract_address(&self) -> (r: Address)
        ensures
            r@ == self@.contract_address,
    {
        self.contract_address
    }

    /// Who signs the call: someone exactly where the operation changes state.
    pub fn signer(&self) -> (r: &Option<Signer>)
        ensures
            match r {
                Some(s) => self@.signer == Some(s@),
                None => self@.signer is None,
            },
            r is Some <==> self@.operation.mutating(),
    {
        proof {
            use_type_invariant(self);
        }
        &self.signer
    }
}

/// A state-changing call with its signer.
fn signed_call(
    operation: Operation,
    parameters: Vec<Parameter>,
    contract_address: Address,
    sender: Address,
    secret: &str,
) -> (r: OperationDescriptor)
    requires
        operation.mutating(),
        kinds_of(values_of(parameters@)) == operation.shape(),
    ensures
        r@ == (Call {
            operation,
            parameters: values_of(parameters@),
            contract_address: contract_address@,
            signer: Some(SignerValue { sender: sender@, credential: secret@ }),
        }),
{
    let signer = Signer { sender, credential: Credential::new(secret) };
    OperationDescriptor { operation, parameters, contract_address, signer: Some(signer) }
}

/// The call that mints `amount` tokens with `token_uri` to `user_address`.
/// The arguments stand in the order of the contract method: receiver, URI,
/// amount.
pub fn mint(
    contract_address: Address,
    user_address: Address,
    my_account: Address,
    my_private_key: &str,
    token_uri: &str,
    amount: u8,
) -> (r: OperationDescriptor)
    ensures
        r@ == (Call {
            operation: Operation::Mint,
            parameters: seq![
                ParameterValue::Address(user_address@),
                ParameterValue::Text(token_uri@),
                ParameterValue::Uint8(amount),
            ],
            contract_address: contract_address@,
            signer: Some(SignerValue { sender: my_account@, credential: my_private_key@ }),
        }),
{
    let parameters = vec![
        Parameter::Address(user_address),
        Parameter::Text(String::from_str(token_uri)),
        Parameter::Uint8(amount),
    ];
    proof {
        let values = seq![
            ParameterValue::Address(user_address@),
            ParameterValue::Text(token_uri@),
            ParameterValue::Uint8(amount),
        ];
        assert(values_of(parameters@) =~= values);
        assert(kinds_of(values) =~= Operation::Mint.shape());
    }
    signed_call(Operation::Mint, parameters, contract_address, my_account, my_private_key)
}

/// The call that approves `address_to` for the token `token_id`.
pub fn approve(
    contract_address: Address,
    my_account: Address,
    my_private_key: &str,
    address_to: Address,
    token_id: Uint256,
) -> (r: OperationDescriptor)
    ensures
        r@ == (Call {
            operation: Operation::Approve,
            parameters: seq![
                ParameterValue::Address(address_to@),
                ParameterValue::Uint256(token_id@),
            ],
            contract_address: contract_address@,
            signer: Some(SignerValue { sender: my_account@, credential: my_private_key@ }),
        }),
{
    let parameters = vec![
        Parameter::Address(address_to),
        Parameter::Uint256(token_id),
    ];
    proof {
        let values = seq![
            ParameterValue::Address(address_to@),
            ParameterValue::Uint256(token_id@),
        ];
        assert(values_of(parameters@) =~= values);
        assert(kinds_of(values) =~= Operation::Approve.shape());
    }
    signed_call(Operation::Approve, parameters, contract_address, my_account, my_private_key)
}

/// The call that safely transfers the token `token_id` from `from` to `to`.
pub fn safe_transfer_from(
    contract_address: Address,
    my_account: Address,
    my_private_key: &str,
    from: Address,
    to: Address,
    token_id: Uint256,
) -> (r: OperationDescriptor)
    ensures
        r@ == (Call {
            operation: Operation::SafeTransferFrom,
            parameters: seq![
                ParameterValue::Address(from@),
                ParameterValue::Address(to@),
                ParameterValue::Uint256(token_id@),
            ],
            contract_address: contract_address@,
            signer: Some(SignerValue { sender: my_account@, credential: my_private_key@ }),
        }),
{
    let parameters = vec![
        Parameter::Address(from),
        Parameter::Address(to),
        Parameter::Uint256(token_id),
    ];
    proof {
        let values = seq![
            ParameterValue::Address(from@),
            ParameterValue::Address(to@),
            ParameterValue::Uint256(token_id@),
        ];
        assert(values_of(parameters@) =~= values);
        assert(kinds_of(values) =~= Operation::SafeTransferFrom.shape());
    }
    signed_call(Operation::SafeTransferFrom, parameters, contract_address, my_account, my_private_key)
}

/// The call that safely transfers the token `token_id` from `from` to `to`
/// and hands `data` to the receiver.
pub fn safe_transfer_from_with_data(
    contract_address: Address,
    my_account: Address,
    my_private_key: &str,
    from: Address,
    to: Address,
    token_id: Uint256,
    data: Vec<u8>,
) -> (r: OperationDescriptor)
    ensures
        r@ == (Call {
            operation: Operation::SafeTransferFromWithData,
            parameters: seq![
                ParameterValue::Address(from@),
                ParameterValue::Address(to@),
                ParameterValue::Uint256(token_id@),
                ParameterValue::Bytes(data@),
            ],
            contract_address: contract_address@,
            signer: Some(SignerValue { sender: my_account@, credential: my_private_key@ }),
        }),
{
    let parameters = vec![
        Parameter::Address(from),
        Parameter::Address(to),
        Parameter::Uint256(token_id),
        Parameter::Bytes(data),
    ];
    proof {
        let values = seq![
            ParameterValue::Address(from@),
            ParameterValue::Address(to@),
            ParameterValue::Uint256(token_id@),
            ParameterValue::Bytes(data@),
        ];
        assert(values_of(parameters@) =~= values);
        assert(kinds_of(values) =~= Operation::SafeTransferFromWithData.shape());
    }
    signed_call(Operation::SafeTransferFromWithData, parameters, contract_address, my_account, my_private_key)
}

/// The call that lets `operator` manage all of the sender's tokens, or ends
/// that.
pub fn set_approval_for_all(
    contract_address: Address,
    my_account: Address,
    my_private_key: &str,
    operator: Address,
    approved: bool,
) -> (r: OperationDescriptor)
    ensures
        r@ == (Call {
            operation: Operation::SetApprovalForAll,
            parameters: seq![
                ParameterValue::Address(operator@),
                ParameterValue::Bool(approved),
            ],
            contract_address: contract_address@,
            signer: Some(SignerValue { sender: my_account@, credential: my_private_key@ }),
        }),
{
    let parameters = vec![
        Parameter::Address(operator),
        Parameter::Bool(approved),
    ];
    proof {
        let values = seq![
            ParameterValue::Address(operator@),
            ParameterValue::Bool(approved),
        ];
        assert(values_of(parameters@) =~= values);
        assert(kinds_of(values) =~= Operation::SetApprovalForAll.shape());
    }
    signed_call(Operation::SetApprovalForAll, parameters, contract_address, my_account, my_private_key)
}

/// The call that transfers the token `token_id` from `from` to `to`.
pub fn transfer_from(
    contract_address: Address,
    my_account: Address,
    my_private_key: &str,
    from: Address,
    to: Address,
    token_id: Uint256,
) -> (r: OperationDescriptor)
    ensures
        r@ == (Call {
            operation: Operation::TransferFrom,
            parameters: seq![
                ParameterValue::Address(from@),
                ParameterValue::Address(to@),
                ParameterValue::Uint256(token_id@),
            ],
            contract_address: contract_address@,
            signer: Some(SignerValue { sender: my_account@, credential: my_private_key@ }),
        }),
{
    let parameters = vec![
        Parameter::Address(from),
        Parameter::Address(to),
        Parameter::Uint256(token_id),
    ];
    proof {
        let values = seq![
            ParameterValue::Address(from@),
            ParameterValue::Address(to@),
            ParameterValue::Uint256(token_id@),
        ];
        assert(values_of(parameters@) =~= values);
        assert(kinds_of(values) =~= Operation::TransferFrom.shape());
    }
    signed_call(Operation::TransferFrom, parameters, contract_address, my_account, my_private_key)
}

/// The read-only query for the number of tokens that `owner` holds. It has
/// no signer.
pub fn balance_of(contract_address: Address, owner: Address) -> (r: OperationDescriptor)
    ensures
        r@ == (Call {
            operation: Operation::BalanceOf,
            parameters: seq![ParameterValue::Address(owner@)],
            contract_address: contract_address@,
            signer: None,
        }),
{
    let parameters = vec![Parameter::Address(owner)];
    proof {
        let values = seq![
            ParameterValue::Address(owner@),
        ];
        assert(values_of(parameters@) =~= values);
        assert(kinds_of(values) =~= Operation::BalanceOf.shape());
    }
    OperationDescriptor {
        operation: Operation::BalanceOf,
        parameters,
        contract_address,
        signer: None,
    }
}

/// The balance query of a request: the contract is the configured one, the
/// owner the address that the request names. It is refused with
/// `InvalidAddress` where either text is no address.
pub fn get_balance(config: &Config, address: &str) -> (r: Result<OperationDescriptor, GatewayError>)
    ensures
        match (hex_address(config.contract_address@), hex_address(address@)) {
            (Some(contract), Some(owner)) => r matches Ok(call) && call@ == (Call {
                operation: Operation::BalanceOf,
                parameters: seq![ParameterValue::Address(owner)],
                contract_address: contract,
                signer: None,
            }),
            _ => r matches Err(e) && e == GatewayError::InvalidAddress,
        },
{
    let contract_address = match config.get_contract_address() {
        Ok(a) => a,
        Err(e) => {
            return Err(e);
        },
    };
    let owner = match Address::parse(address) {
        Ok(a) => a,
        Err(e) => {
            return Err(e);
        },
    };
    Ok(balance_of(contract_address, owner))
}

} // verus!
