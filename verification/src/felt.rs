//! Field elements: the numbers that hashes, addresses and fees are made of.

use vstd::prelude::*;
use crate::text::{decimal_text, fixed_hex_text, hex_text, lemma_fixed_hex_text_len};

verus! {

/// The prime of the field: 2^251 + 17 * 2^192 + 1.
pub open spec fn felt_prime() -> nat {
    0x800000000000011000000000000000000000000000000000000000000000001nat
}

/// The number that the eight bytes from `at` on hold, most significant first.
pub open spec fn be_limb(bytes: Seq<u8>, at: int) -> nat {
    (bytes[at] as nat) * 0x100000000000000 + (bytes[at + 1] as nat) * 0x1000000000000 + (bytes[at
        + 2] as nat) * 0x10000000000 + (bytes[at + 3] as nat) * 0x100000000 + (bytes[at
        + 4] as nat) * 0x1000000 + (bytes[at + 5] as nat) * 0x10000 + (bytes[at + 6] as nat)
        * 0x100 + (bytes[at + 7] as nat)
}

/// The number that thirty-two bytes hold, most significant first.
pub open spec fn be_value(bytes: Seq<u8>) -> nat
    recommends
        bytes.len() == 32,
{
    be_limb(bytes, 0) * 0x1000000000000000000000000000000000000000000000000nat + be_limb(bytes, 8)
        * 0x100000000000000000000000000000000nat + be_limb(bytes, 16) * 0x10000000000000000
        + be_limb(bytes, 24)
}

/// A field element: a number below the field's prime, held as its thirty-two
/// bytes, most significant first.
#[derive(Clone, Copy, Debug, PartialEq, Eq, PartialOrd, Ord, Hash)]
pub struct Felt {
    bytes: [u8; 32],
}

/// A field element that is written with all of its sixty-four hexadecimal
/// digits: a hash or an address.
#[derive(Clone, Copy, Debug, PartialEq, Eq, PartialOrd, Ord, Hash)]
pub struct PaddedFelt(pub Felt);

impl View for Felt {
    type V = nat;

    /// The element's number.
    open spec fn view(&self) -> nat {
        be_value(self.bytes_be())
    }
}

impl View for PaddedFelt {
    type V = nat;

    /// The element's number.
    open spec fn view(&self) -> nat {
        self.0@
    }
}

/// The text of `value` with the prefix `0x` and as few digits as it takes.
pub open spec fn prefixed_hex_text(value: nat) -> Seq<char> {
    seq!['0', 'x'] + hex_text(value)
}

/// The text of `value` with the prefix `0x` and sixty-four digits.
pub open spec fn padded_hex_text(value: nat) -> Seq<char> {
    seq!['0', 'x'] + fixed_hex_text(value, 64)
}

/// The big-endian number of the first eight bytes.
fn leading_limb(bytes: &[u8; 32]) -> (limb: u64)
    ensures
        limb == be_limb(bytes@, 0),
{
    (bytes[0] as u64) * 0x100000000000000 + (bytes[1] as u64) * 0x1000000000000 + (bytes[2] as u64)
        * 0x10000000000 + (bytes[3] as u64) * 0x100000000 + (bytes[4] as u64) * 0x1000000 + (
    bytes[5] as u64) * 0x10000 + (bytes[6] as u64) * 0x100 + (bytes[7] as u64)
}

/// The eight bytes of a number, most significant first.
fn limb_bytes(limb: u64) -> (bytes: [u8; 8])
    ensures
        be_limb(bytes@, 0) == limb,
{
    let rest1: u64 = limb / 0x100;
    let rest2: u64 = rest1 / 0x100;
    let rest3: u64 = rest2 / 0x100;
    let rest4: u64 = rest3 / 0x100;
    let rest5: u64 = rest4 / 0x100;
    let rest6: u64 = rest5 / 0x100;
    let rest7: u64 = rest6 / 0x100;
    [
        rest7 as u8,
        (rest6 % 0x100) as u8,
        (rest5 % 0x100) as u8,
        (rest4 % 0x100) as u8,
        (rest3 % 0x100) as u8,
        (rest2 % 0x100) as u8,
        (rest1 % 0x100) as u8,
        (limb % 0x100) as u8,
    ]
}

/// Whether every byte from the ninth on is zero.
fn trailing_bytes_are_zero(bytes: &[u8; 32]) -> (zero: bool)
    ensures
        zero <==> forall|i: int| 8 <= i < 32 ==> bytes@[i] == 0,
{
    let mut i: usize = 8;
    while i < 32
        invariant
            8 <= i <= 32,
            forall|j: int| 8 <= j < i ==> bytes@[j] == 0,
        decreases 32 - i,
    {
        if bytes[i] != 0 {
            return false;
        }
        i += 1;
    }
    true
}

/// The decimal digits of the element that the bytes hold. `Felt::from_bytes_be`
/// of `starknet_types_core` reads the bytes as a number, most significant byte
/// first, and `Display` of that `Felt` writes the number in base ten, without
/// sign, prefix or leading zeros.
#[verifier::external_body]
fn display_decimal(bytes: &[u8; 32]) -> (text: String)
    requires
        be_value(bytes@) < felt_prime(),
    ensures
        text@ == decimal_text(be_value(bytes@)),
{
    format!("{:#}", starknet_types_core::felt::Felt::from_bytes_be(bytes))
}

/// The text that `Felt::to_hex_string` of `starknet_types_core` gives for the
/// element that `Felt::from_bytes_be` reads from the bytes: `0x`, then the
/// number's hexadecimal digits in lower case, as few as it takes.
#[verifier::external_body]
fn hex_string(bytes: &[u8; 32]) -> (text: String)
    requires
        be_value(bytes@) < felt_prime(),
    ensures
        text@ == prefixed_hex_text(be_value(bytes@)),
{
    starknet_types_core::felt::Felt::from_bytes_be(bytes).to_hex_string()
}

/// The text that `Felt::to_fixed_hex_string` of `starknet_types_core` gives for
/// the element that `Felt::from_bytes_be` reads from the bytes: `0x`, then the
/// number's hexadecimal digits in lower case, filled up with zeros in front to
/// sixty-four digits.
#[verifier::external_body]
fn fixed_hex_string(bytes: &[u8; 32]) -> (text: String)
    requires
        be_value(bytes@) < felt_prime(),
    ensures
        text@ == padded_hex_text(be_value(bytes@)),
{
    starknet_types_core::felt::Felt::from_bytes_be(bytes).to_fixed_hex_string()
}

impl Felt {
    #[verifier::type_invariant]
    spec fn below_prime(&self) -> bool {
        be_value(self.bytes@) < felt_prime()
    }

    /// The element's bytes, most significant first.
    pub closed spec fn bytes_be(&self) -> Seq<u8> {
        self.bytes@
    }

    /// The element that the bytes hold, most significant first, where their
    /// number is below the prime; `None` where it is not.
    pub fn from_bytes_be(bytes: [u8; 32]) -> (felt: Option<Felt>)
        ensures
            felt is Some <==> be_value(bytes@) < felt_prime(),
            felt matches Some(felt) ==> felt@ == be_value(bytes@) && felt.bytes_be() == bytes@,
    {
        let leading: u64 = leading_limb(&bytes);
        let zero: bool = trailing_bytes_are_zero(&bytes);
        if leading < 0x800000000000011 || (leading == 0x800000000000011 && zero) {
            Some(Felt { bytes })
        } else {
            None
        }
    }

    /// The element of a number of at most 128 bits.
    pub fn from_u128(value: u128) -> (felt: Felt)
        ensures
            felt@ == value,
    {
        let high: [u8; 8] = limb_bytes((value / 0x10000000000000000) as u64);
        let low: [u8; 8] = limb_bytes((value % 0x10000000000000000) as u64);
        let bytes: [u8; 32] = [
            0, 0, 0, 0, 0, 0, 0, 0,
            0, 0, 0, 0, 0, 0, 0, 0,
            high[0], high[1], high[2], high[3], high[4], high[5], high[6], high[7],
            low[0], low[1], low[2], low[3], low[4], low[5], low[6], low[7],
        ];
        Felt { bytes }
    }

    /// The element's bytes, most significant first. Their number is below the
    /// prime.
    pub fn to_bytes_be(&self) -> (bytes: [u8; 32])
        ensures
            bytes@ == self.bytes_be(),
            be_value(bytes@) < felt_prime(),
    {
        proof {
            use_type_invariant(self);
        }
        self.bytes
    }

    /// The element's number in decimal digits.
    pub fn to_decimal_string(&self) -> (text: String)
        ensures
            text@ == decimal_text(self@),
    {
        proof {
            use_type_invariant(self);
        }
        display_decimal(&self.bytes)
    }

    /// The element's number as `0x` and its hexadecimal digits.
    pub fn to_hex_string(&self) -> (text: String)
        ensures
            text@ == prefixed_hex_text(self@),
    {
        proof {
            use_type_invariant(self);
        }
        hex_string(&self.bytes)
    }

    /// The element's number as `0x` and sixty-four hexadecimal digits.
    pub fn to_fixed_hex_string(&self) -> (text: String)
        ensures
            text@ == padded_hex_text(self@),
    {
        proof {
            use_type_invariant(self);
        }
        fixed_hex_string(&self.bytes)
    }
}

impl PaddedFelt {
    /// The element's number as `0x` and sixty-four hexadecimal digits.
    pub fn to_hex_string(&self) -> (text: String)
        ensures
            text@ == padded_hex_text(self@),
    {
        self.0.to_fixed_hex_string()
    }
}

/// The text of a hash or an address has sixty-six characters, whatever its
/// number: the prefix and sixty-four digits.
pub proof fn lemma_padded_hex_text_len(value: nat)
    ensures
        padded_hex_text(value).len() == 66,
        padded_hex_text(value)[0] == '0',
        padded_hex_text(value)[1] == 'x',
{
    lemma_fixed_hex_text_len(value, 64);
}

} // verus!
