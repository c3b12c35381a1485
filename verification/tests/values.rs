use nft_gateway::address::{Address, Hash256};
use nft_gateway::config::Config;
use nft_gateway::error::GatewayError;
use nft_gateway::types::NftBalance;
use nft_gateway::uint256::Uint256;

#[test]
fn address_parses_with_and_without_prefix() {
    let mut bytes = [0u8; 20];
    bytes[0] = 0xde;
    bytes[1] = 0xad;
    bytes[19] = 0x01;
    let expected = Ok(Address { bytes });
    assert_eq!(Address::parse("0xdead000000000000000000000000000000000001"), expected);
    assert_eq!(Address::parse("dead000000000000000000000000000000000001"), expected);
}

#[test]
fn address_text_is_case_insensitive() {
    assert_eq!(
        Address::parse("0xABCDEF0000000000000000000000000000000000"),
        Address::parse("0xabcdef0000000000000000000000000000000000")
    );
    assert_eq!(
        Address::parse("0xABCDEF0000000000000000000000000000000000").unwrap().bytes[..3],
        [0xab, 0xcd, 0xef]
    );
}

#[test]
fn address_refuses_what_is_not_twenty_bytes_of_hex() {
    assert_eq!(Address::parse(""), Err(GatewayError::InvalidAddress));
    assert_eq!(Address::parse("0x"), Err(GatewayError::InvalidAddress));
    assert_eq!(Address::parse("0x1234"), Err(GatewayError::InvalidAddress));
    assert_eq!(
        Address::parse("0xzz00000000000000000000000000000000000000"),
        Err(GatewayError::InvalidAddress)
    );
    assert_eq!(
        Address::parse("0x000000000000000000000000000000000000000001"),
        Err(GatewayError::InvalidAddress)
    );
    assert_eq!(Address::parse("account_address"), Err(GatewayError::InvalidAddress));
}

#[test]
fn checked_address_follows_the_parse() {
    assert_eq!(Address::checked(Some([7u8; 20])), Ok(Address { bytes: [7u8; 20] }));
    assert_eq!(Address::checked(None), Err(GatewayError::InvalidAddress));
}

#[test]
fn hash_hexadecimal_text() {
    let mut bytes = [0u8; 32];
    bytes[0] = 0x12;
    bytes[1] = 0xab;
    bytes[2] = 0x77;
    bytes[30] = 0x0f;
    bytes[31] = 0xf0;
    assert_eq!(
        Hash256 { bytes }.to_hex_string(),
        "0x12ab770000000000000000000000000000000000000000000000000000000ff0"
    );
    assert_eq!(
        Hash256::zero().to_hex_string(),
        "0x0000000000000000000000000000000000000000000000000000000000000000"
    );
    assert_eq!(Hash256::zero(), Hash256 { bytes: [0u8; 32] });
}

#[test]
fn decimal_text_of_small_numbers() {
    assert_eq!(Uint256::from_u64(0).to_decimal_string(), "0");
    assert_eq!(Uint256::from_u64(9).to_decimal_string(), "9");
    assert_eq!(Uint256::from_u64(10).to_decimal_string(), "10");
    assert_eq!(Uint256::from_u64(1205).to_decimal_string(), "1205");
    assert_eq!(Uint256::from_u64(u64::MAX).to_decimal_string(), "18446744073709551615");
    assert_eq!(Uint256::from_u64(42), Uint256 { limbs: [42, 0, 0, 0] });
}

#[test]
fn decimal_text_does_not_cut_at_64_bits() {
    assert_eq!(
        Uint256 { limbs: [0, 1, 0, 0] }.to_decimal_string(),
        "18446744073709551616"
    );
    assert_eq!(
        Uint256 { limbs: [0, 0, 1, 0] }.to_decimal_string(),
        "340282366920938463463374607431768211456"
    );
    assert_eq!(
        Uint256 { limbs: [u64::MAX; 4] }.to_decimal_string(),
        "115792089237316195423570985008687907853269984665640564039457584007913129639935"
    );
}

#[test]
fn balance_response_is_decimal() {
    let balance = NftBalance { balance: Uint256 { limbs: [1, 1, 0, 0] } };
    assert_eq!(balance.to_decimal_string(), "18446744073709551617");
}

#[test]
fn default_config_names_its_fields() {
    let config = Config::default();
    assert_eq!(config.infura_apikey, "infura_apikey");
    assert_eq!(config.contract_address, "contract_address");
    assert_eq!(config.account_address, "account_address");
    assert_eq!(config.private_key, "private_key");
    assert_eq!(config.get_contract_address(), Err(GatewayError::InvalidAddress));
    assert_eq!(config.get_my_account(), Err(GatewayError::InvalidAddress));
}

#[test]
fn config_getters() {
    let config = Config {
        infura_apikey: "abc123".to_string(),
        contract_address: "0x00000000000000000000000000000000000000c0".to_string(),
        account_address: "00000000000000000000000000000000000000a0".to_string(),
        private_key: "secret".to_string(),
    };
    assert_eq!(config.get_infura_apikey(), "abc123");
    assert_eq!(config.get_my_private_key(), "secret");
    assert_eq!(config.get_endpoint(), "https://goerli.infura.io/v3/abc123");
    assert!(config.get_instance() == &config);
    let mut contract = [0u8; 20];
    contract[19] = 0xc0;
    assert_eq!(config.get_contract_address(), Ok(Address { bytes: contract }));
    let mut account = [0u8; 20];
    account[19] = 0xa0;
    assert_eq!(config.get_my_account(), Ok(Address { bytes: account }));
}

fn numbered() -> Address {
    let mut bytes = [0u8; 20];
    for (i, byte) in bytes.iter_mut().enumerate() {
        *byte = 0xa0 + i as u8;
    }
    Address { bytes }
}

const NUMBERED: &str = "a0a1a2a3a4a5a6a7a8a9aaabacadaeafb0b1b2b3";

#[test]
fn address_digits_pair_up_high_digit_first() {
    assert_eq!(Address::parse(NUMBERED), Ok(numbered()));
    assert_eq!(Address::parse(&format!("0x{}", NUMBERED)), Ok(numbered()));
    assert_eq!(Address::parse(&NUMBERED.to_uppercase()), Ok(numbered()));
    assert_eq!(
        Address::parse("0xA0a1A2a3A4a5A6a7A8a9AaAbAcAdAeAfB0b1B2b3"),
        Ok(numbered())
    );
}

#[test]
fn address_text_may_hold_blanks_among_the_digits() {
    assert_eq!(Address::parse(&format!("0x{}\n", NUMBERED)), Ok(numbered()));
    assert_eq!(Address::parse(&format!("{} \t\r\n", NUMBERED)), Ok(numbered()));
    assert_eq!(Address::parse(&format!("0x {}", NUMBERED)), Ok(numbered()));
    assert_eq!(
        Address::parse("a 0a1a2a3a4\ta5a6a7a8a9aaab\racadaeafb0b1b2b\n3"),
        Ok(numbered())
    );
}

#[test]
fn address_prefix_is_lower_case_and_comes_first() {
    assert_eq!(
        Address::parse(&format!("0X{}", NUMBERED)),
        Err(GatewayError::InvalidAddress)
    );
    assert_eq!(
        Address::parse(&format!(" 0x{}", NUMBERED)),
        Err(GatewayError::InvalidAddress)
    );
    assert_eq!(
        Address::parse(&format!("0x0x{}", &NUMBERED[2..])),
        Err(GatewayError::InvalidAddress)
    );
    assert_eq!(
        Address::parse(&format!("x{}", NUMBERED)),
        Err(GatewayError::InvalidAddress)
    );
}

#[test]
fn address_refuses_other_characters_and_other_lengths() {
    let refused = [
        format!("{}g", NUMBERED),
        format!("{}0", NUMBERED),
        format!("{}00", NUMBERED),
        format!("0{}", NUMBERED),
        NUMBERED[1..].to_string(),
        NUMBERED[2..].to_string(),
        format!("{}\u{e9}", &NUMBERED[..39]),
        format!("\u{e9}{}", NUMBERED),
        format!("{}\u{a0}", NUMBERED),
        format!("{}\u{b}", NUMBERED),
        format!("{}-", NUMBERED),
        format!("0x{}", NUMBERED.replace('a', "G")),
        " \t\r\n".to_string(),
        "0x \n".to_string(),
    ];
    for text in refused {
        assert_eq!(Address::parse(&text), Err(GatewayError::InvalidAddress), "{:?}", text);
    }
}
