//! Call data of the ERC20 `transfer(address,uint256)` function.
use ethabi::ethereum_types::{H160, U256};
use ethabi::Token;
use vstd::prelude::*;

verus! {

/// Selector of `transfer(address,uint256)`.
pub const TRANSFER_SELECTOR: [u8; 4] = [0xa9, 0x05, 0x9c, 0xbb];

/// The `width` low-order base-256 digits of `value`, most significant first.
pub open spec fn be_bytes(value: nat, width: nat) -> Seq<u8>
    decreases width,
{
    if width == 0 {
        Seq::empty()
    } else {
        be_bytes(value / 256, (width - 1) as nat).push((value % 256) as u8)
    }
}

/// The number that `bytes` spell when read most significant byte first.
pub open spec fn be_value(bytes: Seq<u8>) -> nat
    decreases bytes.len(),
{
    if bytes.len() == 0 {
        0
    } else {
        be_value(bytes.drop_last()) * 256 + bytes.last() as nat
    }
}

/// Whether `value` can be written with `width` base-256 digits.
pub open spec fn fits_in(value: nat, width: nat) -> bool
    decreases width,
{
    if width == 0 {
        value == 0
    } else {
        fits_in(value / 256, (width - 1) as nat)
    }
}

/// ABI word of an address: twelve zero bytes, then the address.
pub open spec fn address_word(to: Seq<u8>) -> Seq<u8>
    recommends
        to.len() == 20,
{
    Seq::new(12, |i: int| 0u8) + to
}

/// ABI word of an unsigned integer: 32 bytes, big-endian, zero-extended.
pub open spec fn uint_word(value: nat) -> Seq<u8> {
    be_bytes(value, 32)
}

/// Call data that asks an ERC20 contract to move `value` tokens to `to`.
pub open spec fn transfer_call_data(to: Seq<u8>, value: nat) -> Seq<u8>
    recommends
        to.len() == 20,
{
    TRANSFER_SELECTOR@ + address_word(to) + uint_word(value)
}

/// Calls `ethabi::encode` on an address token followed by an unsigned
/// integer token. Both tokens are static, so the encoder emits one 32-byte
/// word for each, in order: the address right-aligned behind twelve zero
/// bytes, then the integer in big-endian form. The encoder does not panic on
/// these two token kinds.
#[verifier::external_body]
fn abi_encode_address_uint(to: &[u8; 20], value: u128) -> (words: Vec<u8>)
    ensures
        words@ == address_word(to@) + uint_word(value as nat),
{
    ethabi::encode(&[Token::Address(H160::from(*to)), Token::Uint(U256::from(value))])
}

/// Builds the call data of `transfer(to, value)`: the selector, then the ABI
/// encoding of the two arguments.
pub fn transfer_encode(to: [u8; 20], value: u128) -> (encoded: Vec<u8>)
    ensures
        encoded@ == transfer_call_data(to@, value as nat),
        encoded@.len() == 68,
        encoded@.subrange(0, 4) == TRANSFER_SELECTOR@,
        forall|i: int| 4 <= i < 16 ==> encoded@[i] == 0,
        encoded@.subrange(16, 36) == to@,
        encoded@.subrange(36, 68) == be_bytes(value as nat, 32),
        be_value(encoded@.subrange(36, 68)) == value,
{
    let mut encoded: Vec<u8> = Vec::new();
    let mut i: usize = 0;
    while i < 4
        invariant
            i <= 4,
            encoded@ == TRANSFER_SELECTOR@.subrange(0, i as int),
        decreases 4 - i,
    {
        encoded.push(TRANSFER_SELECTOR[i]);
        i += 1;
    }
    let mut words = abi_encode_address_uint(&to, value);
    encoded.append(&mut words);
    proof {
        lemma_transfer_call_data_layout(to@, value as nat);
        lemma_uint_word_spells_amount(value);
    }
    encoded
}

/// `be_bytes` yields exactly `width` bytes.
pub proof fn lemma_be_bytes_len(value: nat, width: nat)
    ensures
        be_bytes(value, width).len() == width,
    decreases width,
{
    if width > 0 {
        lemma_be_bytes_len(value / 256, (width - 1) as nat);
    }
}

/// Reading back the digits that `be_bytes` wrote gives the value, as long as
/// the value fits in that many digits.
pub proof fn lemma_be_value_of_be_bytes(value: nat, width: nat)
    requires
        fits_in(value, width),
    ensures
        be_value(be_bytes(value, width)) == value,
    decreases width,
{
    if width > 0 {
        let high = be_bytes(value / 256, (width - 1) as nat);
        lemma_be_value_of_be_bytes(value / 256, (width - 1) as nat);
        assert(high.push((value % 256) as u8).drop_last() =~= high);
    }
}

/// A value that fits in `width` digits still fits when more are allowed.
pub proof fn lemma_fits_in_wider(value: nat, width: nat, wider: nat)
    requires
        fits_in(value, width),
        width <= wider,
    ensures
        fits_in(value, wider),
    decreases wider,
{
    if width == 0 {
        lemma_zero_fits(wider);
    } else {
        lemma_fits_in_wider(value / 256, (width - 1) as nat, (wider - 1) as nat);
    }
}

/// Zero fits in any number of digits.
pub proof fn lemma_zero_fits(width: nat)
    ensures
        fits_in(0, width),
    decreases width,
{
    if width > 0 {
        lemma_zero_fits((width - 1) as nat);
    }
}

/// Every 128-bit amount fits in one ABI word.
pub proof fn lemma_amount_fits_word(value: u128)
    ensures
        fits_in(value as nat, 32),
{
    assert(fits_in(value as nat, 16)) by {
        reveal_with_fuel(fits_in, 17);
    }
    lemma_fits_in_wider(value as nat, 16, 32);
}

/// The amount field of the call data, read as a big-endian integer, is the
/// amount.
pub proof fn lemma_uint_word_spells_amount(value: u128)
    ensures
        uint_word(value as nat).len() == 32,
        be_value(uint_word(value as nat)) == value,
{
    lemma_be_bytes_len(value as nat, 32);
    lemma_amount_fits_word(value);
    lemma_be_value_of_be_bytes(value as nat, 32);
}

/// An amount of 128 bits leaves the upper half of its ABI word at zero.
pub proof fn lemma_amount_is_zero_extended(value: u128)
    ensures
        forall|i: int| 0 <= i < 16 ==> uint_word(value as nat)[i] == 0,
{
    reveal_with_fuel(be_bytes, 33);
}

/// Layout of the call data: 68 bytes, of which the first four are the
/// selector, the next twelve are zero, the next twenty are the address and
/// the last 32 are the amount in big-endian form.
pub proof fn lemma_transfer_call_data_layout(to: Seq<u8>, value: nat)
    requires
        to.len() == 20,
    ensures
        transfer_call_data(to, value).len() == 68,
        transfer_call_data(to, value).subrange(0, 4) == TRANSFER_SELECTOR@,
        TRANSFER_SELECTOR@ == seq![0xa9u8, 0x05u8, 0x9cu8, 0xbbu8],
        forall|i: int| 4 <= i < 16 ==> transfer_call_data(to, value)[i] == 0,
        transfer_call_data(to, value).subrange(16, 36) == to,
        transfer_call_data(to, value).subrange(36, 68) == be_bytes(value, 32),
{
    lemma_be_bytes_len(value, 32);
}

} // verus!
