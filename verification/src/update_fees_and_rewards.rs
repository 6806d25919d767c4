//! Bringing the fees and rewards of a position up to date.

use vstd::prelude::*;
use crate::account::{Account, AccountInfo, Position, TickArray, Whirlpool};
use crate::constraint::{
    all_hold, first_failure, first_failure_from, lemma_first_failure, AccountName, Check, Rule,
    Violation,
};
use crate::invocation::{Instruction, Invocation, InvocationView};
use crate::pubkey::{Pubkey, WHIRLPOOL_PROGRAM_ID};

verus! {

/// The accounts for bringing the fees and rewards of a position up to date.
#[derive(Clone, Debug, PartialEq, Eq)]
pub struct UpdateFeesAndRewardsCPI {
    pub whirlpool_program: AccountInfo,
    pub whirlpool: Account<Whirlpool>,
    pub position: Account<Position>,
    pub tick_array_lower: Account<TickArray>,
    pub tick_array_upper: Account<TickArray>,
}

impl UpdateFeesAndRewardsCPI {
    /// The constraints on the account set, in the order in which they are judged:
    /// first what each account has to be, then what is asked of each.
    pub open spec fn checks(&self) -> Seq<Check> {
        seq![
            Check {
                account: AccountName::WhirlpoolProgram,
                rule: Rule::Program,
                holds: self.whirlpool_program.key == (Pubkey { bytes: WHIRLPOOL_PROGRAM_ID }),
            },
            Check {
                account: AccountName::Whirlpool,
                rule: Rule::Writable,
                holds: self.whirlpool.info.is_writable,
            },
            Check {
                account: AccountName::Position,
                rule: Rule::Writable,
                holds: self.position.info.is_writable,
            },
            Check {
                account: AccountName::Position,
                rule: Rule::Pool,
                holds: self.position.data.whirlpool == self.whirlpool.info.key,
            },
            Check {
                account: AccountName::TickArrayLower,
                rule: Rule::Pool,
                holds: self.tick_array_lower.data.whirlpool == self.whirlpool.info.key,
            },
            Check {
                account: AccountName::TickArrayUpper,
                rule: Rule::Pool,
                holds: self.tick_array_upper.data.whirlpool == self.whirlpool.info.key,
            },
        ]
    }

    /// The account set is valid: the program is the exchange program, the pool and the
    /// position are writable, and the position and both tick arrays lie in the pool.
    pub open spec fn valid(&self) -> bool {
        &&& self.whirlpool_program.key == (Pubkey { bytes: WHIRLPOOL_PROGRAM_ID })
        &&& self.whirlpool.info.is_writable
        &&& self.position.info.is_writable
        &&& self.position.data.whirlpool == self.whirlpool.info.key
        &&& self.tick_array_lower.data.whirlpool == self.whirlpool.info.key
        &&& self.tick_array_upper.data.whirlpool == self.whirlpool.info.key
    }

    /// The checks hold together exactly when the account set is valid.
    pub proof fn lemma_checks_decide_validity(&self)
        ensures
            all_hold(self.checks()) <==> self.valid(),
    {
        reveal_with_fuel(first_failure_from, 7);
        lemma_first_failure(self.checks());
    }

    /// The accounts that the exchange program is handed, in the order in which
    /// its instruction takes them.
    pub open spec fn accounts(&self) -> Seq<Pubkey> {
        seq![
            self.whirlpool.info.key,
            self.position.info.key,
            self.tick_array_lower.info.key,
            self.tick_array_upper.info.key,
        ]
    }

    /// Judges the constraints in their order and stops at the first that the
    /// account set does not meet.
    pub fn validate(&self) -> (r: Result<(), Violation>)
        ensures
            r is Ok <==> self.valid(),
            r matches Err(v) ==> first_failure(self.checks()) == Some(v),
    {
        proof {
            reveal_with_fuel(first_failure_from, 7);
            self.lemma_checks_decide_validity();
        }
        if self.whirlpool_program.key != (Pubkey { bytes: WHIRLPOOL_PROGRAM_ID }) {
            return Err(Violation { account: AccountName::WhirlpoolProgram, rule: Rule::Program });
        }
        if !self.whirlpool.info.is_writable {
            return Err(Violation { account: AccountName::Whirlpool, rule: Rule::Writable });
        }
        if !self.position.info.is_writable {
            return Err(Violation { account: AccountName::Position, rule: Rule::Writable });
        }
        if self.position.data.whirlpool != self.whirlpool.info.key {
            return Err(Violation { account: AccountName::Position, rule: Rule::Pool });
        }
        if self.tick_array_lower.data.whirlpool != self.whirlpool.info.key {
            return Err(Violation { account: AccountName::TickArrayLower, rule: Rule::Pool });
        }
        if self.tick_array_upper.data.whirlpool != self.whirlpool.info.key {
            return Err(Violation { account: AccountName::TickArrayUpper, rule: Rule::Pool });
        }
        Ok(())
    }
}

/// Brings the fees and rewards of a position up to date: validates the account set,
/// then hands the call on.
pub fn update_fees_and_rewards(ctx: UpdateFeesAndRewardsCPI) -> (r: Result<Invocation, Violation>)
    ensures
        r is Ok <==> ctx.valid(),
        r matches Ok(call) ==> call@ == (InvocationView {
            program: ctx.whirlpool_program.key,
            instruction: Instruction::UpdateFeesAndRewards,
            accounts: ctx.accounts(),
        }),
        r matches Err(v) ==> first_failure(ctx.checks()) == Some(v),
{
    match ctx.validate() {
        Err(violation) => Err(violation),
        Ok(_) => {
            let accounts: Vec<Pubkey> = vec![
                ctx.whirlpool.info.key,
                ctx.position.info.key,
                ctx.tick_array_lower.info.key,
                ctx.tick_array_upper.info.key,
            ];
            Ok(
                Invocation {
                    program: ctx.whirlpool_program.key,
                    instruction: Instruction::UpdateFeesAndRewards,
                    accounts,
                },
            )
        },
    }
}

} // verus!
