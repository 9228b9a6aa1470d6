//! The EVM address of a native account identifier.
use ethabi::ethereum_types::H160;
use vstd::prelude::*;

verus! {

/// A native account identifier: 32 opaque bytes.
#[derive(Clone, Copy, Debug)]
pub struct AccountId {
    pub bytes: [u8; 32],
}

impl View for AccountId {
    type V = Seq<u8>;

    open spec fn view(&self) -> Seq<u8> {
        self.bytes@
    }
}

/// The EVM address that stands for a native identifier: its first 20 bytes.
pub open spec fn evm_address(native: Seq<u8>) -> Seq<u8>
    recommends
        native.len() == 32,
{
    native.subrange(0, 20)
}

/// Truncates a native account identifier to its EVM address.
pub fn h160(from: &AccountId) -> (dest: [u8; 20])
    ensures
        dest@ == evm_address(from@),
{
    let mut dest: [u8; 20] = [0u8; 20];
    let mut i: usize = 0;
    while i < 20
        invariant
            i <= 20,
            forall|k: int| 0 <= k < i ==> dest@[k] == from.bytes@[k],
        decreases 20 - i,
    {
        dest[i] = from.bytes[i];
        i += 1;
    }
    dest
}

/// Lower-case hexadecimal digit of a number below sixteen.
pub open spec fn hex_digit(nibble: int) -> char
    recommends
        0 <= nibble < 16,
{
    if nibble < 10 {
        ('0' as int + nibble) as char
    } else {
        ('a' as int + nibble - 10) as char
    }
}

/// The two hexadecimal digits of a byte, high digit first.
pub open spec fn hex_pair(byte: u8) -> Seq<char> {
    seq![hex_digit(byte as int / 16), hex_digit(byte as int % 16)]
}

/// Short display form of an EVM address: `0x`, its first two bytes in
/// hexadecimal, an ellipsis, and its last two bytes in hexadecimal.
pub open spec fn h160_display(address: Seq<u8>) -> Seq<char>
    recommends
        address.len() == 20,
{
    seq!['0', 'x'] + hex_pair(address[0]) + hex_pair(address[1]) + seq!['\u{2026}'] + hex_pair(
        address[18],
    ) + hex_pair(address[19])
}

/// Calls `to_string` on the `ethabi::ethereum_types::H160` made of the given
/// bytes, which goes through the `Display` impl of that type. That impl
/// writes `0x`, the first two bytes as two lower-case hexadecimal digits
/// each, an ellipsis, and the last two bytes likewise.
#[verifier::external_body]
pub(crate) fn h160_to_string(address: &[u8; 20]) -> (text: String)
    ensures
        text@ == h160_display(address@),
{
    H160::from(*address).to_string()
}

/// The address is a function of the identifier: any two addresses obtained
/// for one identifier are the same address.
pub proof fn lemma_h160_deterministic(from: AccountId, first: [u8; 20], second: [u8; 20])
    requires
        first@ == evm_address(from@),
        second@ == evm_address(from@),
    ensures
        first == second,
{
}

/// Truncation is lossy: identifiers that agree on their first twenty bytes
/// share one EVM address, whatever their remaining bytes hold.
pub proof fn lemma_h160_collision(a: AccountId, b: AccountId)
    requires
        forall|i: int| 0 <= i < 20 ==> a@[i] == b@[i],
    ensures
        evm_address(a@) == evm_address(b@),
{
}

} // verus!
