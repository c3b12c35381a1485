//! Chain identifiers: 20-byte account addresses and 32-byte hashes.

use crate::error::GatewayError;
use vstd::prelude::*;

verus! {

/// The value of a hexadecimal digit, in either case.
pub open spec fn hex_value(c: char) -> Option<int> {
    match c {
        '0' => Some(0),
        '1' => Some(1),
        '2' => Some(2),
        '3' => Some(3),
        '4' => Some(4),
        '5' => Some(5),
        '6' => Some(6),
        '7' => Some(7),
        '8' => Some(8),
        '9' => Some(9),
        'a' | 'A' => Some(10),
        'b' | 'B' => Some(11),
        'c' | 'C' => Some(12),
        'd' | 'D' => Some(13),
        'e' | 'E' => Some(14),
        'f' | 'F' => Some(15),
        _ => None,
    }
}

/// The characters that an address text may hold between its digits: space,
/// carriage return, line feed and tab.
pub open spec fn is_blank(c: char) -> bool {
    c == ' ' || c == '\r' || c == '\n' || c == '\t'
}

/// The values of the digits of a text, in order and with the blanks left
/// out; `None` where the text holds anything but digits and blanks.
pub open spec fn nibbles(text: Seq<char>) -> Option<Seq<int>>
    decreases text.len(),
{
    if text.len() == 0 {
        Some(Seq::empty())
    } else {
        match nibbles(text.drop_last()) {
            None => None,
            Some(before) => if is_blank(text.last()) {
                Some(before)
            } else {
                match hex_value(text.last()) {
                    Some(value) => Some(before.push(value)),
                    None => None,
                }
            },
        }
    }
}

/// The text of an address without its prefix `0x`, where it has one.
pub open spec fn without_prefix(text: Seq<char>) -> Seq<char> {
    if text.len() >= 2 && text[0] == '0' && text[1] == 'x' {
        text.skip(2)
    } else {
        text
    }
}

/// The 20 bytes that an address text stands for: after an optional `0x`,
/// exactly 40 hexadecimal digits of either case, two for each byte, high
/// digit first. Blanks among the digits do not count. Any other text stands
/// for no address.
pub open spec fn hex_address(text: Seq<char>) -> Option<Seq<u8>> {
    match nibbles(without_prefix(text)) {
        Some(digits) => if digits.len() == 40 {
            Some(Seq::new(20, |i: int| (16 * digits[2 * i] + digits[2 * i + 1]) as u8))
        } else {
            None
        },
        None => None,
    }
}

/// Calls `web3::types::H160::from_str` (fixed-hash's `FromStr`, which reads
/// the digits with rustc-hex's `FromHexIter`). It strips one leading `0x`,
/// skips space, carriage return, line feed and tab, takes two hexadecimal
/// digits of either case for each of the 20 bytes, and reports an error for
/// any other character and for more or fewer than 40 digits.
#[verifier::external_body]
fn parse_h160(text: &str) -> (r: Option<[u8; 20]>)
    ensures
        match r {
            Some(bytes) => hex_address(text@) == Some(bytes@),
            None => hex_address(text@) is None,
        },
{
    match <web3::types::H160 as std::str::FromStr>::from_str(text) {
        Ok(hash) => Some(hash.0),
        Err(_) => None,
    }
}

/// The sixteen lower-case hexadecimal digits, by value.
pub open spec fn hex_digits() -> Seq<char> {
    seq!['0', '1', '2', '3', '4', '5', '6', '7', '8', '9', 'a', 'b', 'c', 'd', 'e', 'f']
}

/// The two hexadecimal digits of a byte, high nibble first.
pub open spec fn byte_hex(b: u8) -> Seq<char> {
    seq![hex_digits()[b as int / 16], hex_digits()[b as int % 16]]
}

/// The hexadecimal text of bytes: `0x`, then the two digits of each byte,
/// first byte first.
pub open spec fn hex_text(bytes: Seq<u8>) -> Seq<char> {
    Seq::new(
        (2 + 2 * bytes.len()) as nat,
        |i: int|
            if i == 0 {
                '0'
            } else if i == 1 {
                'x'
            } else {
                byte_hex(bytes[(i - 2) / 2])[(i - 2) % 2]
            },
    )
}

/// Formats a `web3::types::H256` with `{:#x}`, that is fixed-hash's
/// `LowerHex` under the alternate flag: it writes `0x` and then every one of
/// the 32 bytes as two lower-case hexadecimal digits.
#[verifier::external_body]
fn h256_to_hex(bytes: &[u8; 32]) -> (r: String)
    ensures
        r@ == hex_text(bytes@),
{
    format!("{:#x}", web3::types::H256(*bytes))
}

/// A 20-byte account or contract identifier. Two addresses are equal when
/// their bytes are.
#[derive(Clone, Copy, Debug, PartialEq, Eq)]
pub struct Address {
    pub bytes: [u8; 20],
}

impl View for Address {
    type V = Seq<u8>;

    open spec fn view(&self) -> Seq<u8> {
        self.bytes@
    }
}

impl Address {
    /// The address of 20 bytes where there are some, `InvalidAddress` where
    /// there are none.
    pub fn checked(parsed: Option<[u8; 20]>) -> (r: Result<Address, GatewayError>)
        ensures
            match parsed {
                Some(bytes) => r == Ok::<Address, GatewayError>(Address { bytes }),
                None => r == Err::<Address, GatewayError>(GatewayError::InvalidAddress),
            },
    {
        match parsed {
            Some(bytes) => Ok(Address { bytes }),
            None => Err(GatewayError::InvalidAddress),
        }
    }

    /// Reads an address from its hexadecimal text.
    pub fn parse(text: &str) -> (r: Result<Address, GatewayError>)
        ensures
            match r {
                Ok(address) => hex_address(text@) == Some(address@),
                Err(e) => e == GatewayError::InvalidAddress && hex_address(text@) is None,
            },
    {
        Address::checked(parse_h160(text))
    }
}

/// A 32-byte hash: of a transaction or of a block.
#[derive(Clone, Copy, Debug, PartialEq, Eq)]
pub struct Hash256 {
    pub bytes: [u8; 32],
}

impl View for Hash256 {
    type V = Seq<u8>;

    open spec fn view(&self) -> Seq<u8> {
        self.bytes@
    }
}

impl Hash256 {
    /// The hash of 32 zero bytes.
    pub fn zero() -> (r: Hash256)
        ensures
            r@ == Seq::new(32, |i: int| 0u8),
    {
        let r = Hash256 { bytes: [0u8; 32] };
        assert(r.bytes@ =~= Seq::new(32, |i: int| 0u8));
        r
    }

    /// The hash in hexadecimal, all of its 32 bytes.
    pub fn to_hex_string(&self) -> (r: String)
        ensures
            r@ == hex_text(self@),
    {
        h256_to_hex(&self.bytes)
    }
}

/// A letter digit in lower case; any other character as it is.
pub open spec fn lower(c: char) -> char {
    match c {
        'A' => 'a',
        'B' => 'b',
        'C' => 'c',
        'D' => 'd',
        'E' => 'e',
        'F' => 'f',
        _ => c,
    }
}

/// A text with its letter digits in lower case.
pub open spec fn lowered(text: Seq<char>) -> Seq<char> {
    text.map_values(|c: char| lower(c))
}

proof fn nibbles_ignore_case(text: Seq<char>)
    ensures
        nibbles(lowered(text)) == nibbles(text),
    decreases text.len(),
{
    if text.len() > 0 {
        nibbles_ignore_case(text.drop_last());
        assert(lowered(text).drop_last() =~= lowered(text.drop_last()));
        assert(lowered(text).last() == lower(text.last()));
    }
}

/// The case of the digits does not matter to an address: two texts that
/// differ only in it stand for the same address, or both for none.
pub proof fn address_text_ignores_case(a: Seq<char>, b: Seq<char>)
    requires
        lowered(a) == lowered(b),
    ensures
        hex_address(a) == hex_address(b),
{
    address_of_lowered(a);
    address_of_lowered(b);
}

proof fn address_of_lowered(text: Seq<char>)
    ensures
        hex_address(lowered(text)) == hex_address(text),
{
    if text.len() >= 2 {
        assert(lowered(text)[0] == lower(text[0]));
        assert(lowered(text)[1] == lower(text[1]));
        assert(lowered(text).skip(2) =~= lowered(text.skip(2)));
        nibbles_ignore_case(text.skip(2));
    }
    nibbles_ignore_case(text);
}

/// The hexadecimal text tells the bytes: two byte sequences with the same
/// text are the same sequence.
pub proof fn hex_text_tells_the_bytes(a: Seq<u8>, b: Seq<u8>)
    requires
        hex_text(a) == hex_text(b),
    ensures
        a == b,
{
    assert(hex_text(a).len() == 2 + 2 * a.len());
    assert(hex_text(b).len() == 2 + 2 * b.len());
    assert forall|j: int| 0 <= j < a.len() implies a[j] == b[j] by {
        let high = 2 + 2 * j;
        let low = 3 + 2 * j;
        assert(hex_text(a)[high] == byte_hex(a[j])[0]);
        assert(hex_text(b)[high] == byte_hex(b[j])[0]);
        assert(hex_text(a)[low] == byte_hex(a[j])[1]);
        assert(hex_text(b)[low] == byte_hex(b[j])[1]);
        let x = a[j] as int;
        let y = b[j] as int;
        assert(hex_digits()[x / 16] == hex_digits()[y / 16]);
        assert(hex_digits()[x % 16] == hex_digits()[y % 16]);
        assert(x / 16 == y / 16);
        assert(x % 16 == y % 16);
    }
    assert(a =~= b);
}

} // verus!
