use nft_gateway::catalog::ParameterKind::{Address, Bool, Bytes, Text, Uint256, Uint8};
use nft_gateway::catalog::Operation;
use nft_gateway::error::GatewayError;

const ALL: [Operation; 7] = [
    Operation::BalanceOf,
    Operation::Mint,
    Operation::Approve,
    Operation::TransferFrom,
    Operation::SafeTransferFrom,
    Operation::SafeTransferFromWithData,
    Operation::SetApprovalForAll,
];

#[test]
fn unknown_operation_is_refused() {
    assert_eq!(Operation::from_name("burn"), Err(GatewayError::UnknownOperation));
    assert_eq!(Operation::from_name(""), Err(GatewayError::UnknownOperation));
    assert_eq!(Operation::from_name("Mint"), Err(GatewayError::UnknownOperation));
    assert_eq!(Operation::from_name("mint "), Err(GatewayError::UnknownOperation));
}

#[test]
fn every_name_finds_its_operation() {
    assert_eq!(Operation::from_name("balanceOf"), Ok(Operation::BalanceOf));
    assert_eq!(Operation::from_name("mint"), Ok(Operation::Mint));
    assert_eq!(Operation::from_name("approve"), Ok(Operation::Approve));
    assert_eq!(Operation::from_name("transferFrom"), Ok(Operation::TransferFrom));
    assert_eq!(Operation::from_name("safeTransferFrom"), Ok(Operation::SafeTransferFrom));
    assert_eq!(
        Operation::from_name("safeTransferFromWithData"),
        Ok(Operation::SafeTransferFromWithData)
    );
    assert_eq!(Operation::from_name("setApprovalForAll"), Ok(Operation::SetApprovalForAll));
}

#[test]
fn name_and_lookup_agree() {
    for op in ALL {
        assert_eq!(Operation::from_name(op.name()), Ok(op));
    }
}

#[test]
fn method_names_are_those_of_the_contract() {
    assert_eq!(Operation::BalanceOf.method(), "balanceOf");
    assert_eq!(Operation::Mint.method(), "mint");
    assert_eq!(Operation::Approve.method(), "approve");
    assert_eq!(Operation::TransferFrom.method(), "transferFrom");
    assert_eq!(Operation::SafeTransferFrom.method(), "safeTransferFrom");
    assert_eq!(Operation::SafeTransferFromWithData.method(), "safeTransferFrom");
    assert_eq!(Operation::SetApprovalForAll.method(), "setApprovalForAll");
}

#[test]
fn only_the_balance_query_is_read_only() {
    for op in ALL {
        assert_eq!(op.is_mutating(), op != Operation::BalanceOf);
    }
}

#[test]
fn parameter_shapes_follow_the_catalog() {
    assert_eq!(Operation::BalanceOf.parameter_kinds(), vec![Address]);
    assert_eq!(Operation::Mint.parameter_kinds(), vec![Address, Text, Uint8]);
    assert_eq!(Operation::Approve.parameter_kinds(), vec![Address, Uint256]);
    assert_eq!(Operation::TransferFrom.parameter_kinds(), vec![Address, Address, Uint256]);
    assert_eq!(Operation::SafeTransferFrom.parameter_kinds(), vec![Address, Address, Uint256]);
    assert_eq!(
        Operation::SafeTransferFromWithData.parameter_kinds(),
        vec![Address, Address, Uint256, Bytes]
    );
    assert_eq!(Operation::SetApprovalForAll.parameter_kinds(), vec![Address, Bool]);
}
