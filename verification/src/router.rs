//! Cross-VM requests and the choice of the path a transfer takes.
use crate::address::{evm_address, h160, AccountId};
use crate::encoder::{transfer_call_data, transfer_encode};
use vstd::prelude::*;

verus! {

/// Identifier of the EVM among the virtual machines that a call can target.
pub const EVM_ID: u8 = 0x0F;

/// A call into another virtual machine, ready to be handed to the dispatcher.
#[derive(Debug)]
pub struct XvmCall {
    /// The virtual machine that hosts the target contract.
    pub vm_id: u8,
    /// Address of the target contract.
    pub target: Vec<u8>,
    /// Call data handed to the target contract.
    pub payload: Vec<u8>,
}

/// What an `XvmCall` holds, as mathematical values.
pub struct XvmCallView {
    pub vm_id: u8,
    pub target: Seq<u8>,
    pub payload: Seq<u8>,
}

impl View for XvmCall {
    type V = XvmCallView;

    open spec fn view(&self) -> XvmCallView {
        XvmCallView { vm_id: self.vm_id, target: self.target@, payload: self.payload@ }
    }
}

/// The two ways a transfer can reach its destination.
#[derive(Clone, Copy, Debug, PartialEq, Eq, Structural)]
pub enum TransferPath {
    /// The destination is addressed as an EVM account.
    Evm,
    /// The destination is addressed as a native account.
    Native,
}

/// The request that moves `value` tokens of the ERC20 contract at `erc20` to
/// the EVM address `to`.
pub open spec fn evm_call(to: Seq<u8>, value: nat, erc20: Seq<u8>) -> XvmCallView
    recommends
        to.len() == 20,
        erc20.len() == 20,
{
    XvmCallView { vm_id: EVM_ID, target: erc20, payload: transfer_call_data(to, value) }
}

/// The request that moves `value` tokens of the ERC20 contract at `erc20` to
/// the native account `to`: the token contract is paid out to the EVM address
/// of that account.
pub open spec fn native_call(to: Seq<u8>, value: nat, erc20: Seq<u8>) -> XvmCallView
    recommends
        to.len() == 32,
        erc20.len() == 20,
{
    evm_call(evm_address(to), value, erc20)
}

/// Copies a contract address into an owned byte vector.
fn address_bytes(address: &[u8; 20]) -> (bytes: Vec<u8>)
    ensures
        bytes@ == address@,
{
    let mut bytes: Vec<u8> = Vec::new();
    let mut i: usize = 0;
    while i < 20
        invariant
            i <= 20,
            bytes@ == address@.subrange(0, i as int),
        decreases 20 - i,
    {
        bytes.push(address[i]);
        i += 1;
    }
    bytes
}

/// Builds the request of a transfer to an EVM address.
pub fn evm_request(to: [u8; 20], value: u128, erc20_address: [u8; 20]) -> (call: XvmCall)
    ensures
        call@ == evm_call(to@, value as nat, erc20_address@),
{
    let payload = transfer_encode(to, value);
    XvmCall { vm_id: EVM_ID, target: address_bytes(&erc20_address), payload }
}

/// Builds the request of a transfer to a native account. The auxiliary data
/// takes no part in the request.
pub fn native_request(to: &AccountId, value: u128, erc20_address: [u8; 20], data: &Vec<u8>) -> (call:
    XvmCall)
    ensures
        call@ == native_call(to@, value as nat, erc20_address@),
{
    let payload = transfer_encode(h160(to), value);
    XvmCall { vm_id: EVM_ID, target: address_bytes(&erc20_address), payload }
}

/// Chooses the path of a composed transfer. Every transfer takes the EVM
/// path, whatever the destination, the amount and the auxiliary data are.
pub fn select_path(to: &AccountId, value: u128, erc20_address: &[u8; 20], data: &Vec<u8>) -> (path:
    TransferPath)
    ensures
        path == TransferPath::Evm,
{
    TransferPath::Evm
}

/// Builds the request of a composed transfer along the path that
/// `select_path` chooses: the destination is mapped to its EVM address
/// and the request is the one of the EVM path.
pub fn route(to: &AccountId, value: u128, erc20_address: [u8; 20], data: &Vec<u8>) -> (call: XvmCall)
    ensures
        call@ == evm_call(evm_address(to@), value as nat, erc20_address@),
{
    match select_path(to, value, &erc20_address, data) {
        TransferPath::Evm => evm_request(h160(to), value, erc20_address),
        TransferPath::Native => native_request(to, value, erc20_address, data),
    }
}

} // verus!
