//! The call that is handed on to the exchange program, and how it ends.

use vstd::prelude::*;
use crate::constraint::Violation;
use crate::pubkey::Pubkey;

verus! {

/// An instruction of the exchange program, with its arguments.
#[derive(Clone, Copy, Debug, PartialEq, Eq)]
pub enum Instruction {
    OpenPosition { position_bump: u8, tick_lower_index: i32, tick_upper_index: i32 },
    InitializeTickArray { start_tick_index: i32 },
    IncreaseLiquidity { liquidity_amount: u128, token_max_a: u64, token_max_b: u64 },
    DecreaseLiquidity { liquidity_amount: u128, token_min_a: u64, token_min_b: u64 },
    ClosePosition,
    UpdateFeesAndRewards,
    CollectFees,
    CollectReward { reward_index: u8 },
}

/// One call to be made: the program to call, the instruction, and the
/// accounts it is given, in the order in which the instruction takes them.
#[derive(Clone, Debug, PartialEq, Eq)]
pub struct Invocation {
    pub program: Pubkey,
    pub instruction: Instruction,
    pub accounts: Vec<Pubkey>,
}

/// An invocation as a mathematical value.
pub struct InvocationView {
    pub program: Pubkey,
    pub instruction: Instruction,
    pub accounts: Seq<Pubkey>,
}

impl View for Invocation {
    type V = InvocationView;

    open spec fn view(&self) -> InvocationView {
        InvocationView {
            program: self.program,
            instruction: self.instruction,
            accounts: self.accounts@,
        }
    }
}

/// Why an operation failed.
#[derive(Clone, Debug, PartialEq, Eq)]
pub enum ForwardError<E> {
    /// The account set broke a constraint, and no call was made.
    InvalidAccount(Violation),
    /// The exchange program failed. Its error is carried as it came.
    Delegated(E),
}

/// How an operation ends once the exchange program has answered with
/// `reply`: as the exchange program's call ended.
pub open spec fn concluded<E>(reply: Result<(), E>) -> Result<(), ForwardError<E>> {
    match reply {
        Ok(_) => Ok(()),
        Err(error) => Err(ForwardError::Delegated(error)),
    }
}

/// The operation succeeds exactly when the exchange program did. Where the
/// exchange program failed, the operation fails with that very error, never
/// with a violation of its own.
pub proof fn lemma_reply_unchanged<E>(reply: Result<(), E>)
    ensures
        concluded(reply) is Ok <==> reply is Ok,
        reply matches Err(error) ==> concluded(reply) == Err::<(), ForwardError<E>>(
            ForwardError::Delegated(error),
        ),
        !(concluded(reply) matches Err(ForwardError::InvalidAccount(_))),
{
}

impl Invocation {
    /// Ends the operation with the exchange program's answer to this call.
    /// The answer is neither looked into nor altered.
    pub fn conclude<E>(self, reply: Result<(), E>) -> (outcome: Result<(), ForwardError<E>>)
        ensures
            outcome == concluded(reply),
    {
        match reply {
            Ok(_) => Ok(()),
            Err(error) => Err(ForwardError::Delegated(error)),
        }
    }
}

impl<E> From<Violation> for ForwardError<E> {
    fn from(violation: Violation) -> (error: ForwardError<E>) {
        ForwardError::InvalidAccount(violation)
    }
}

impl<E> vstd::std_specs::convert::FromSpecImpl<Violation> for ForwardError<E> {
    open spec fn obeys_from_spec() -> bool {
        true
    }

    open spec fn from_spec(violation: Violation) -> ForwardError<E> {
        ForwardError::InvalidAccount(violation)
    }
}

} // verus!
