//! The operations that the bridge offers.
use crate::address::{evm_address, h160, h160_display, h160_to_string, AccountId};
use crate::dispatch::{accepts, answers, reports, submit, PSP22Error};
use crate::router::{evm_call, evm_request, native_call, native_request, route, XvmCall};
use vstd::prelude::*;

verus! {

/// The bridge. It keeps no state: every operation stands for itself.
#[derive(Debug)]
pub struct XvmTransfer {}

impl XvmTransfer {
    /// Creates the bridge.
    pub fn new() -> (bridge: Self)
        ensures
            bridge == (XvmTransfer {}),
    {
        XvmTransfer {}
    }

    /// Moves `value` tokens of the ERC20 contract at `erc20_address` to the
    /// EVM address `to`, and tells whether the dispatcher reported success.
    pub fn transfer_to_evm<E, D: FnOnce(XvmCall) -> Result<(), E>>(
        &mut self,
        to: [u8; 20],
        value: u128,
        erc20_address: [u8; 20],
        dispatch: D,
    ) -> (done: bool)
        requires
            accepts(dispatch, evm_call(to@, value as nat, erc20_address@)),
        ensures
            exists|answer: Result<(), E>| #[trigger]
                answers(dispatch, evm_call(to@, value as nat, erc20_address@), answer)
                    && done == (answer is Ok),
            *final(self) == *old(self),
    {
        let call = evm_request(to, value, erc20_address);
        submit(call, dispatch).is_ok()
    }

    /// Moves `value` tokens of the ERC20 contract at `erc20_address` to the
    /// native account `to`. Any failure of the dispatcher comes back as the
    /// one error of a transfer.
    pub fn transfer_to_native<E, D: FnOnce(XvmCall) -> Result<(), E>>(
        &mut self,
        to: AccountId,
        value: u128,
        erc20_address: [u8; 20],
        data: Vec<u8>,
        dispatch: D,
    ) -> (outcome: Result<(), PSP22Error>)
        requires
            accepts(dispatch, native_call(to@, value as nat, erc20_address@)),
        ensures
            exists|answer: Result<(), E>| #[trigger]
                answers(dispatch, native_call(to@, value as nat, erc20_address@), answer)
                    && reports(outcome, answer),
            *final(self) == *old(self),
    {
        let call = native_request(&to, value, erc20_address, &data);
        submit(call, dispatch)
    }

    /// Moves `value` tokens of the ERC20 contract at `erc20_address` to the
    /// account `to` along the path that the router chooses, which is the EVM
    /// path for every input. Any failure of the dispatcher comes back as the
    /// one error of a transfer.
    pub fn transfer<E, D: FnOnce(XvmCall) -> Result<(), E>>(
        &mut self,
        to: AccountId,
        value: u128,
        erc20_address: [u8; 20],
        data: Vec<u8>,
        dispatch: D,
    ) -> (outcome: Result<(), PSP22Error>)
        requires
            accepts(dispatch, evm_call(evm_address(to@), value as nat, erc20_address@)),
        ensures
            exists|answer: Result<(), E>| #[trigger]
                answers(
                    dispatch,
                    evm_call(evm_address(to@), value as nat, erc20_address@),
                    answer,
                ) && reports(outcome, answer),
            *final(self) == *old(self),
    {
        let call = route(&to, value, erc20_address, &data);
        submit(call, dispatch)
    }

    /// Display form of the EVM address of a native account.
    pub fn to_h160_address(&self, from: AccountId) -> (text: String)
        ensures
            text@ == h160_display(evm_address(from@)),
    {
        h160_to_string(&h160(&from))
    }
}

} // verus!
