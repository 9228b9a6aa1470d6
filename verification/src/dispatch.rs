//! The boundary to the cross-VM dispatcher: what it is handed and how its
//! answer is reported.
//!
//! The dispatcher itself is a capability of the caller: any function that
//! takes an `XvmCall` and answers with success or with a failure of its own
//! type. Whatever the failure is, callers of this crate see one error.
use crate::router::{XvmCall, XvmCallView};
use vstd::prelude::*;

verus! {

/// The one error of a transfer.
#[derive(Debug, PartialEq, Eq)]
pub enum PSP22Error {
    /// A failure described by a message.
    Custom(String),
}

impl View for PSP22Error {
    type V = Seq<char>;

    /// The message of the error.
    open spec fn view(&self) -> Seq<char> {
        match self {
            PSP22Error::Custom(message) => message@,
        }
    }
}

/// Message of the error that stands for every dispatcher failure.
pub open spec fn transfer_failed() -> Seq<char> {
    "transfer failed"@
}

/// Whether `outcome` is the report of the dispatcher's `answer`: success for
/// success, and the one error with its fixed message for any failure.
pub open spec fn reports<E>(outcome: Result<(), PSP22Error>, answer: Result<(), E>) -> bool {
    match answer {
        Ok(_) => outcome is Ok,
        Err(_) => outcome matches Err(error) && error@ == transfer_failed(),
    }
}

/// Whether the dispatcher can be handed every call that holds `request`.
pub open spec fn accepts<E, D: FnOnce(XvmCall) -> Result<(), E>>(
    dispatch: D,
    request: XvmCallView,
) -> bool {
    forall|call: XvmCall| call@ == request ==> #[trigger] dispatch.requires((call,))
}

/// Whether `answer` is what the dispatcher may give when handed `request`.
pub open spec fn answers<E, D: FnOnce(XvmCall) -> Result<(), E>>(
    dispatch: D,
    request: XvmCallView,
    answer: Result<(), E>,
) -> bool {
    exists|call: XvmCall| call@ == request && #[trigger] dispatch.ensures((call,), answer)
}

/// Whether the dispatcher fails whatever it is handed.
pub open spec fn always_fails<E, D: FnOnce(XvmCall) -> Result<(), E>>(dispatch: D) -> bool {
    forall|call: XvmCall, answer: Result<(), E>| #[trigger]
        dispatch.ensures((call,), answer) ==> answer is Err
}

/// Reports the answer of the dispatcher, dropping the detail of a failure.
pub fn transfer_outcome<E>(answer: Result<(), E>) -> (outcome: Result<(), PSP22Error>)
    ensures
        reports(outcome, answer),
{
    match answer {
        Ok(_) => Ok(()),
        Err(_) => Err(PSP22Error::Custom("transfer failed".to_owned())),
    }
}

/// Hands `call` to the dispatcher, once, and reports its answer.
pub fn submit<E, D: FnOnce(XvmCall) -> Result<(), E>>(call: XvmCall, dispatch: D) -> (outcome:
    Result<(), PSP22Error>)
    requires
        accepts(dispatch, call@),
    ensures
        exists|answer: Result<(), E>| #[trigger]
            answers(dispatch, call@, answer) && reports(outcome, answer),
{
    let ghost sent = call;
    let answer = dispatch(call);
    assert(answers(dispatch, sent@, answer)) by {
        assert(dispatch.ensures((sent,), answer));
    }
    transfer_outcome(answer)
}

/// With a dispatcher that fails whatever it is handed, the report of a
/// request can only be the one error with its fixed message.
pub proof fn lemma_failure_is_the_one_error<E, D: FnOnce(XvmCall) -> Result<(), E>>(
    dispatch: D,
    request: XvmCallView,
    outcome: Result<(), PSP22Error>,
)
    requires
        always_fails(dispatch),
        exists|answer: Result<(), E>| #[trigger]
            answers(dispatch, request, answer) && reports(outcome, answer),
    ensures
        outcome matches Err(error) && error@ == "transfer failed"@,
{
}

/// With a dispatcher that fails whatever it is handed, the success flag of a
/// request can only be `false`.
pub proof fn lemma_failure_is_false<E, D: FnOnce(XvmCall) -> Result<(), E>>(
    dispatch: D,
    request: XvmCallView,
    done: bool,
)
    requires
        always_fails(dispatch),
        exists|answer: Result<(), E>| #[trigger]
            answers(dispatch, request, answer) && done == (answer is Ok),
    ensures
        !done,
{
}

} // verus!
