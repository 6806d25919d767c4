//! Initializing a tick array.

use vstd::prelude::*;
use crate::account::{Account, AccountInfo, Whirlpool};
use crate::constraint::{
    all_hold, first_failure, first_failure_from, lemma_first_failure, AccountName, Check, Rule,
    Violation,
};
use crate::invocation::{Instruction, Invocation, InvocationView};
use crate::pubkey::{Pubkey, SYSTEM_PROGRAM_ID, WHIRLPOOL_PROGRAM_ID};

verus! {

/// The accounts for initializing a tick array of a pool.
#[derive(Clone, Debug, PartialEq, Eq)]
pub struct InitializeTickArrayCPI {
    pub whirlpool_program: AccountInfo,
    pub whirlpool: Account<Whirlpool>,
    pub funder: AccountInfo,
    pub tick_array: AccountInfo,
    pub system_program: AccountInfo,
}

impl InitializeTickArrayCPI {
    /// The constraints on the account set, in the order in which they are judged:
    /// first what each account has to be, then what is asked of each.
    pub open spec fn checks(&self) -> Seq<Check> {
        seq![
            Check {
                account: AccountName::WhirlpoolProgram,
                rule: Rule::Program,
                holds: self.whirlpool_program.key == (Pubkey { bytes: WHIRLPOOL_PROGRAM_ID }),
            },
            Check {
                account: AccountName::Funder,
                rule: Rule::Signer,
                holds: self.funder.is_signer,
            },
            Check {
                account: AccountName::SystemProgram,
                rule: Rule::Program,
                holds: self.system_program.key == (Pubkey { bytes: SYSTEM_PROGRAM_ID }),
            },
            Check {
                account: AccountName::Funder,
                rule: Rule::Writable,
                holds: self.funder.is_writable,
            },
            Check {
                account: AccountName::TickArray,
                rule: Rule::Writable,
                holds: self.tick_array.is_writable,
            },
        ]
    }

    /// The account set is valid: the funder has signed, the two programs are the ones
    /// they are named for, and the funder and the tick array are writable. Of the
    /// pool nothing is asked but that it is one.
    pub open spec fn valid(&self) -> bool {
        &&& self.funder.is_signer
        &&& self.whirlpool_program.key == (Pubkey { bytes: WHIRLPOOL_PROGRAM_ID })
        &&& self.system_program.key == (Pubkey { bytes: SYSTEM_PROGRAM_ID })
        &&& self.funder.is_writable
        &&& self.tick_array.is_writable
    }

    /// The checks hold together exactly when the account set is valid.
    pub proof fn lemma_checks_decide_validity(&self)
        ensures
            all_hold(self.checks()) <==> self.valid(),
    {
        reveal_with_fuel(first_failure_from, 6);
        lemma_first_failure(self.checks());
    }

    /// The accounts that the exchange program is handed, in the order in which
    /// its instruction takes them.
    pub open spec fn accounts(&self) -> Seq<Pubkey> {
        seq![
            self.whirlpool.info.key,
            self.funder.key,
            self.tick_array.key,
            self.system_program.key,
        ]
    }

    /// Judges the constraints in their order and stops at the first that the
    /// account set does not meet.
    pub fn validate(&self) -> (r: Result<(), Violation>)
        ensures
            r is Ok <==> self.valid(),
            r matches Err(v) ==> first_failure(self.checks()) == Some(v),
    {
        proof {
            reveal_with_fuel(first_failure_from, 6);
            self.lemma_checks_decide_validity();
        }
        if self.whirlpool_program.key != (Pubkey { bytes: WHIRLPOOL_PROGRAM_ID }) {
            return Err(Violation { account: AccountName::WhirlpoolProgram, rule: Rule::Program });
        }
        if !self.funder.is_signer {
            return Err(Violation { account: AccountName::Funder, rule: Rule::Signer });
        }
        if self.system_program.key != (Pubkey { bytes: SYSTEM_PROGRAM_ID }) {
            return Err(Violation { account: AccountName::SystemProgram, rule: Rule::Program });
        }
        if !self.funder.is_writable {
            return Err(Violation { account: AccountName::Funder, rule: Rule::Writable });
        }
        if !self.tick_array.is_writable {
            return Err(Violation { account: AccountName::TickArray, rule: Rule::Writable });
        }
        Ok(())
    }
}

/// Initializes a tick array of a pool: validates the account set, then hands the
/// call on with the start tick index as it was given.
pub fn initialize_tick_array(
    ctx: InitializeTickArrayCPI,
    start_tick_index: i32,
) -> (r: Result<Invocation, Violation>)
    ensures
        r is Ok <==> ctx.valid(),
        r matches Ok(call) ==> call@ == (InvocationView {
            program: ctx.whirlpool_program.key,
            instruction: Instruction::InitializeTickArray { start_tick_index },
            accounts: ctx.accounts(),
        }),
        r matches Err(v) ==> first_failure(ctx.checks()) == Some(v),
{
    match ctx.validate() {
        Err(violation) => Err(violation),
        Ok(_) => {
            let accounts: Vec<Pubkey> = vec![
                ctx.whirlpool.info.key,
                ctx.funder.key,
                ctx.tick_array.key,
                ctx.system_program.key,
            ];
            Ok(
                Invocation {
                    program: ctx.whirlpool_program.key,
                    instruction: Instruction::InitializeTickArray { start_tick_index },
                    accounts,
                },
            )
        },
    }
}

} // verus!
