use nft_gateway::address::Address;
use nft_gateway::catalog::{Operation, ParameterKind};
use nft_gateway::config::Config;
use nft_gateway::error::GatewayError;
use nft_gateway::eth::{
    approve, balance_of, get_balance, mint, safe_transfer_from, safe_transfer_from_with_data,
    set_approval_for_all, transfer_from, Credential, OperationDescriptor, Parameter,
};
use nft_gateway::uint256::Uint256;

fn address(last: u8) -> Address {
    let mut bytes = [0u8; 20];
    bytes[19] = last;
    Address { bytes }
}

fn signed_by(call: &OperationDescriptor, sender: Address, secret: &str) -> bool {
    match call.signer() {
        Some(signer) => signer.sender == sender && signer.credential.expose() == secret,
        None => false,
    }
}

fn kinds(call: &OperationDescriptor) -> Vec<ParameterKind> {
    call.parameters().iter().map(|p| p.kind()).collect()
}

#[test]
fn mint_keeps_method_name_and_parameter_order() {
    let call = mint(address(1), address(2), address(3), "key", "ipfs://a", 4);
    assert_eq!(call.method(), "mint");
    assert_eq!(call.operation(), Operation::Mint);
    assert_eq!(
        call.parameters(),
        &vec![
            Parameter::Address(address(2)),
            Parameter::Text("ipfs://a".to_string()),
            Parameter::Uint8(4),
        ]
    );
    assert_eq!(call.contract_address(), address(1));
    assert!(signed_by(&call, address(3), "key"));
}

#[test]
fn approve_call() {
    let id = Uint256::from_u64(77);
    let call = approve(address(1), address(3), "key", address(9), id);
    assert_eq!(call.method(), "approve");
    assert_eq!(
        call.parameters(),
        &vec![Parameter::Address(address(9)), Parameter::Uint256(id)]
    );
    assert_eq!(call.contract_address(), address(1));
    assert!(signed_by(&call, address(3), "key"));
}

#[test]
fn transfer_calls_order_from_before_to() {
    let id = Uint256 { limbs: [1, 2, 3, 4] };
    let expected = vec![
        Parameter::Address(address(5)),
        Parameter::Address(address(6)),
        Parameter::Uint256(id),
    ];
    let plain = transfer_from(address(1), address(3), "key", address(5), address(6), id);
    assert_eq!(plain.method(), "transferFrom");
    assert_eq!(plain.operation(), Operation::TransferFrom);
    assert_eq!(plain.parameters(), &expected);
    let safe = safe_transfer_from(address(1), address(3), "key", address(5), address(6), id);
    assert_eq!(safe.method(), "safeTransferFrom");
    assert_eq!(safe.operation(), Operation::SafeTransferFrom);
    assert_eq!(safe.parameters(), &expected);
    assert!(signed_by(&safe, address(3), "key"));
}

#[test]
fn safe_transfer_with_data_appends_the_data() {
    let id = Uint256::from_u64(8);
    let call = safe_transfer_from_with_data(
        address(1),
        address(3),
        "key",
        address(5),
        address(6),
        id,
        vec![104, 105],
    );
    assert_eq!(call.method(), "safeTransferFrom");
    assert_eq!(call.operation(), Operation::SafeTransferFromWithData);
    assert_eq!(
        call.parameters(),
        &vec![
            Parameter::Address(address(5)),
            Parameter::Address(address(6)),
            Parameter::Uint256(id),
            Parameter::Bytes(vec![104, 105]),
        ]
    );
}

#[test]
fn set_approval_for_all_call() {
    let call = set_approval_for_all(address(1), address(3), "key", address(7), true);
    assert_eq!(call.method(), "setApprovalForAll");
    assert_eq!(
        call.parameters(),
        &vec![Parameter::Address(address(7)), Parameter::Bool(true)]
    );
    let revoke = set_approval_for_all(address(1), address(3), "key", address(7), false);
    assert_eq!(revoke.parameters()[1], Parameter::Bool(false));
}

#[test]
fn balance_query_has_no_signer() {
    let call = balance_of(address(1), address(2));
    assert_eq!(call.method(), "balanceOf");
    assert_eq!(call.operation(), Operation::BalanceOf);
    assert_eq!(call.parameters(), &vec![Parameter::Address(address(2))]);
    assert!(call.signer().is_none());
    assert_eq!(call.contract_address(), address(1));
}

#[test]
fn every_call_has_the_shape_of_its_operation() {
    let id = Uint256::from_u64(1);
    let calls = vec![
        balance_of(address(1), address(2)),
        mint(address(1), address(2), address(3), "k", "u", 0),
        approve(address(1), address(3), "k", address(2), id),
        transfer_from(address(1), address(3), "k", address(2), address(4), id),
        safe_transfer_from(address(1), address(3), "k", address(2), address(4), id),
        safe_transfer_from_with_data(address(1), address(3), "k", address(2), address(4), id, vec![]),
        set_approval_for_all(address(1), address(3), "k", address(2), true),
    ];
    for call in &calls {
        assert_eq!(kinds(call), call.operation().parameter_kinds());
        assert_eq!(call.signer().is_some(), call.operation().is_mutating());
    }
}

#[test]
fn parameter_kinds() {
    assert_eq!(Parameter::Address(address(1)).kind(), ParameterKind::Address);
    assert_eq!(Parameter::Text(String::new()).kind(), ParameterKind::Text);
    assert_eq!(Parameter::Uint8(255).kind(), ParameterKind::Uint8);
    assert_eq!(Parameter::Uint256(Uint256::from_u64(0)).kind(), ParameterKind::Uint256);
    assert_eq!(Parameter::Bool(false).kind(), ParameterKind::Bool);
    assert_eq!(Parameter::Bytes(vec![]).kind(), ParameterKind::Bytes);
}

#[test]
fn credential_hands_out_what_it_took() {
    assert_eq!(Credential::new("0xdeadbeef").expose(), "0xdeadbeef");
    assert_eq!(Credential::new("").expose(), "");
}

fn config(contract: &str) -> Config {
    Config {
        infura_apikey: "key".to_string(),
        contract_address: contract.to_string(),
        account_address: "0x00000000000000000000000000000000000000aa".to_string(),
        private_key: "secret".to_string(),
    }
}

#[test]
fn get_balance_builds_the_query() {
    let config = config("0x0000000000000000000000000000000000000001");
    let call = get_balance(&config, "0x0000000000000000000000000000000000000002");
    assert!(call == Ok(balance_of(address(1), address(2))));
}

#[test]
fn get_balance_refuses_bad_addresses() {
    let good = config("0x0000000000000000000000000000000000000001");
    assert!(get_balance(&good, "not an address") == Err(GatewayError::InvalidAddress));
    assert!(get_balance(&good, "0x01") == Err(GatewayError::InvalidAddress));
    let bad = config("contract_address");
    assert!(
        get_balance(&bad, "0x0000000000000000000000000000000000000002")
            == Err(GatewayError::InvalidAddress)
    );
}
