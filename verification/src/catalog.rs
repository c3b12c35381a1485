//! The operation catalog: each logical NFT action with its contract method,
//! its parameter shape and whether it changes on-chain state.

use crate::error::GatewayError;
use vstd::prelude::*;
use vstd::string::*;

verus! {

/// The type of one contract-call argument.
#[derive(Clone, Copy, Debug, PartialEq, Eq, Structural)]
pub enum ParameterKind {
    Address,
    Text,
    Uint8,
    Uint256,
    Bool,
    Bytes,
}

/// A logical action on the NFT contract.
#[derive(Clone, Copy, Debug, PartialEq, Eq, Structural)]
pub enum Operation {
    BalanceOf,
    Mint,
    Approve,
    TransferFrom,
    SafeTransferFrom,
    SafeTransferFromWithData,
    SetApprovalForAll,
}

/// Whether two texts hold the same characters.
fn same_text(a: &str, b: &str) -> (r: bool)
    ensures
        r == (a@ == b@),
{
    let x = String::from_str(a);
    let y = String::from_str(b);
    x == y
}

impl Operation {
    /// The name under which the catalog lists the action.
    pub open spec fn name_of(self) -> Seq<char> {
        match self {
            Operation::BalanceOf => "balanceOf"@,
            Operation::Mint => "mint"@,
            Operation::Approve => "approve"@,
            Operation::TransferFrom => "transferFrom"@,
            Operation::SafeTransferFrom => "safeTransferFrom"@,
            Operation::SafeTransferFromWithData => "safeTransferFromWithData"@,
            Operation::SetApprovalForAll => "setApprovalForAll"@,
        }
    }

    /// The contract method that the action calls. The two safe transfers
    /// share one method name and differ in their parameters.
    pub open spec fn method_of(self) -> Seq<char> {
        match self {
            Operation::SafeTransferFromWithData => "safeTransferFrom"@,
            _ => self.name_of(),
        }
    }

    /// Whether the action changes on-chain state, and so needs signing and
    /// confirmation.
    pub open spec fn mutating(self) -> bool {
        self != Operation::BalanceOf
    }

    /// The types of the action's parameters, in the order of the call.
    pub open spec fn shape(self) -> Seq<ParameterKind> {
        match self {
            Operation::BalanceOf => seq![ParameterKind::Address],
            Operation::Mint => seq![
                ParameterKind::Address,
                ParameterKind::Text,
                ParameterKind::Uint8,
            ],
            Operation::Approve => seq![ParameterKind::Address, ParameterKind::Uint256],
            Operation::TransferFrom => seq![
                ParameterKind::Address,
                ParameterKind::Address,
                ParameterKind::Uint256,
            ],
            Operation::SafeTransferFrom => seq![
                ParameterKind::Address,
                ParameterKind::Address,
                ParameterKind::Uint256,
            ],
            Operation::SafeTransferFromWithData => seq![
                ParameterKind::Address,
                ParameterKind::Address,
                ParameterKind::Uint256,
                ParameterKind::Bytes,
            ],
            Operation::SetApprovalForAll => seq![ParameterKind::Address, ParameterKind::Bool],
        }
    }

    /// Looks an action up by its catalog name. Parameter values are not
    /// looked at here: only names are mapped.
    pub fn from_name(name: &str) -> (r: Result<Operation, GatewayError>)
        ensures
            match r {
                Ok(op) => name@ == op.name_of(),
                Err(e) => e == GatewayError::UnknownOperation && forall|op: Operation|
                    name@ != #[trigger] op.name_of(),
            },
    {
        if same_text(name, "balanceOf") {
            Ok(Operation::BalanceOf)
        } else if same_text(name, "mint") {
            Ok(Operation::Mint)
        } else if same_text(name, "approve") {
            Ok(Operation::Approve)
        } else if same_text(name, "transferFrom") {
            Ok(Operation::TransferFrom)
        } else if same_text(name, "safeTransferFrom") {
            Ok(Operation::SafeTransferFrom)
        } else if same_text(name, "safeTransferFromWithData") {
            Ok(Operation::SafeTransferFromWithData)
        } else if same_text(name, "setApprovalForAll") {
            Ok(Operation::SetApprovalForAll)
        } else {
            Err(GatewayError::UnknownOperation)
        }
    }

    /// The catalog name of the action.
    pub fn name(&self) -> (r: &'static str)
        ensures
            r@ == self.name_of(),
    {
        match self {
            Operation::BalanceOf => "balanceOf",
            Operation::Mint => "mint",
            Operation::Approve => "approve",
            Operation::TransferFrom => "transferFrom",
            Operation::SafeTransferFrom => "safeTransferFrom",
            Operation::SafeTransferFromWithData => "safeTransferFromWithData",
            Operation::SetApprovalForAll => "setApprovalForAll",
        }
    }

    /// The name of the contract method that the action calls.
    pub fn method(&self) -> (r: &'static str)
        ensures
            r@ == self.method_of(),
    {
        match self {
            Operation::SafeTransferFromWithData => "safeTransferFrom",
            _ => self.name(),
        }
    }

    /// Whether the action changes on-chain state.
    pub fn is_mutating(&self) -> (r: bool)
        ensures
            r == self.mutating(),
    {
        match self {
            Operation::BalanceOf => false,
            _ => true,
        }
    }

    /// The types of the action's parameters, in the order of the call.
    pub fn parameter_kinds(&self) -> (r: Vec<ParameterKind>)
        ensures
            r@ == self.shape(),
    {
        let mut kinds: Vec<ParameterKind> = Vec::new();
        kinds.push(ParameterKind::Address);
        match self {
            Operation::BalanceOf => {},
            Operation::Mint => {
                kinds.push(ParameterKind::Text);
                kinds.push(ParameterKind::Uint8);
            },
            Operation::Approve => {
                kinds.push(ParameterKind::Uint256);
            },
            Operation::TransferFrom | Operation::SafeTransferFrom => {
                kinds.push(ParameterKind::Address);
                kinds.push(ParameterKind::Uint256);
            },
            Operation::SafeTransferFromWithData => {
                kinds.push(ParameterKind::Address);
                kinds.push(ParameterKind::Uint256);
                kinds.push(ParameterKind::Bytes);
            },
            Operation::SetApprovalForAll => {
                kinds.push(ParameterKind::Bool);
            },
        }
        assert(kinds@ =~= self.shape());
        kinds
    }
}

/// No two actions of the catalog share a name.
pub proof fn names_are_distinct(a: Operation, b: Operation)
    requires
        a.name_of() == b.name_of(),
    ensures
        a == b,
{
    reveal_strlit("balanceOf");
    reveal_strlit("mint");
    reveal_strlit("approve");
    reveal_strlit("transferFrom");
    reveal_strlit("safeTransferFrom");
    reveal_strlit("safeTransferFromWithData");
    reveal_strlit("setApprovalForAll");
    assert("balanceOf"@.len() == 9);
    assert("mint"@.len() == 4);
    assert("approve"@.len() == 7);
    assert("transferFrom"@.len() == 12);
    assert("safeTransferFrom"@.len() == 16);
    assert("safeTransferFromWithData"@.len() == 24);
    assert("setApprovalForAll"@.len() == 17);
}

} // verus!
