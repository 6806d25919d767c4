//! Closing a position.

use vstd::prelude::*;
use crate::account::{Account, AccountInfo, Position, TokenAccount};
use crate::constraint::{
    all_hold, first_failure, first_failure_from, lemma_first_failure, AccountName, Check, Rule,
    Violation,
};
use crate::invocation::{Instruction, Invocation, InvocationView};
use crate::pubkey::{Pubkey, TOKEN_PROGRAM_ID, WHIRLPOOL_PROGRAM_ID};

verus! {

/// The accounts for closing a position. The rent of the closed account goes to the
/// receiver.
#[derive(Clone, Debug, PartialEq, Eq)]
pub struct ClosePositionCPI {
    pub whirlpool_program: AccountInfo,
    pub position_authority: AccountInfo,
    pub receiver: AccountInfo,
    pub position: Account<Position>,
    pub position_mint: AccountInfo,
    pub position_token_account: Account<TokenAccount>,
    pub token_program: AccountInfo,
}

impl ClosePositionCPI {
    /// The constraints on the account set, in the order in which they are judged:
    /// first what each account has to be, then what is asked of each.
    pub open spec fn checks(&self) -> Seq<Check> {
        seq![
            Check {
                account: AccountName::WhirlpoolProgram,
                rule: Rule::Program,
                holds: self.whirlpool_program.key == (Pubkey { bytes: WHIRLPOOL_PROGRAM_ID }),
            },
            Check {
                account: AccountName::PositionAuthority,
                rule: Rule::Signer,
                holds: self.position_authority.is_signer,
            },
            Check {
                account: AccountName::TokenProgram,
                rule: Rule::Program,
                holds: self.token_program.key == (Pubkey { bytes: TOKEN_PROGRAM_ID }),
            },
            Check {
                account: AccountName::Receiver,
                rule: Rule::Writable,
                holds: self.receiver.is_writable,
            },
            Check {
                account: AccountName::Position,
                rule: Rule::Writable,
                holds: self.position.info.is_writable,
            },
            Check {
                account: AccountName::Position,
                rule: Rule::Receiver,
                holds: self.position.info.key != self.receiver.key,
            },
            Check {
                account: AccountName::PositionMint,
                rule: Rule::Writable,
                holds: self.position_mint.is_writable,
            },
            Check {
                account: AccountName::PositionMint,
                rule: Rule::Address,
                holds: self.position_mint.key == self.position.data.position_mint,
            },
            Check {
                account: AccountName::PositionTokenAccount,
                rule: Rule::Writable,
                holds: self.position_token_account.info.is_writable,
            },
            Check {
                account: AccountName::PositionTokenAccount,
                rule: Rule::Amount,
                holds: self.position_token_account.data.amount == 1,
            },
            Check {
                account: AccountName::PositionTokenAccount,
                rule: Rule::Mint,
                holds: self.position_token_account.data.mint == self.position.data.position_mint,
            },
        ]
    }

    /// The account set is valid: the position authority has signed, the two programs
    /// are the ones they are named for, and the receiver, the position, its mint and
    /// its token account are writable. The receiver is another account than the
    /// position. The mint is the one that the position records, and the position
    /// token account is of that mint and holds exactly one unit.
    pub open spec fn valid(&self) -> bool {
        &&& self.position_authority.is_signer
        &&& self.whirlpool_program.key == (Pubkey { bytes: WHIRLPOOL_PROGRAM_ID })
        &&& self.token_program.key == (Pubkey { bytes: TOKEN_PROGRAM_ID })
        &&& self.receiver.is_writable
        &&& self.position.info.is_writable
        &&& self.position_mint.is_writable
        &&& self.position_token_account.info.is_writable
        &&& self.position.info.key != self.receiver.key
        &&& self.position_mint.key == self.position.data.position_mint
        &&& self.position_token_account.data.amount == 1
        &&& self.position_token_account.data.mint == self.position.data.position_mint
    }

    /// The checks hold together exactly when the account set is valid.
    pub proof fn lemma_checks_decide_validity(&self)
        ensures
            all_hold(self.checks()) <==> self.valid(),
    {
        reveal_with_fuel(first_failure_from, 12);
        lemma_first_failure(self.checks());
    }

    /// The accounts that the exchange program is handed, in the order in which
    /// its instruction takes them.
    pub open spec fn accounts(&self) -> Seq<Pubkey> {
        seq![
            self.position_authority.key,
            self.receiver.key,
            self.position.info.key,
            self.position_mint.key,
            self.position_token_account.info.key,
            self.token_program.key,
        ]
    }

    /// Judges the constraints in their order and stops at the first that the
    /// account set does not meet.
    pub fn validate(&self) -> (r: Result<(), Violation>)
        ensures
            r is Ok <==> self.valid(),
            r matches Err(v) ==> first_failure(self.checks()) == Some(v),
    {
        proof {
            reveal_with_fuel(first_failure_from, 12);
            self.lemma_checks_decide_validity();
        }
        if self.whirlpool_program.key != (Pubkey { bytes: WHIRLPOOL_PROGRAM_ID }) {
            return Err(Violation { account: AccountName::WhirlpoolProgram, rule: Rule::Program });
        }
        if !self.position_authority.is_signer {
            return Err(Violation { account: AccountName::PositionAuthority, rule: Rule::Signer });
        }
        if self.token_program.key != (Pubkey { bytes: TOKEN_PROGRAM_ID }) {
            return Err(Violation { account: AccountName::TokenProgram, rule: Rule::Program });
        }
        if !self.receiver.is_writable {
            return Err(Violation { account: AccountName::Receiver, rule: Rule::Writable });
        }
        if !self.position.info.is_writable {
            return Err(Violation { account: AccountName::Position, rule: Rule::Writable });
        }
        if self.position.info.key == self.receiver.key {
            return Err(Violation { account: AccountName::Position, rule: Rule::Receiver });
        }
        if !self.position_mint.is_writable {
            return Err(Violation { account: AccountName::PositionMint, rule: Rule::Writable });
        }
        if self.position_mint.key != self.position.data.position_mint {
            return Err(Violation { account: AccountName::PositionMint, rule: Rule::Address });
        }
        if !self.position_token_account.info.is_writable {
            return Err(
                Violation { account: AccountName::PositionTokenAccount, rule: Rule::Writable },
            );
        }
        if self.position_token_account.data.amount != 1 {
            return Err(
                Violation { account: AccountName::PositionTokenAccount, rule: Rule::Amount },
            );
        }
        if self.position_token_account.data.mint != self.position.data.position_mint {
            return Err(Violation { account: AccountName::PositionTokenAccount, rule: Rule::Mint });
        }
        Ok(())
    }
}

/// Closes a position: validates the account set, then hands the call on. To close
/// the account and pay its rent out to the receiver is the exchange program's work.
pub fn close_position(ctx: ClosePositionCPI) -> (r: Result<Invocation, Violation>)
    ensures
        r is Ok <==> ctx.valid(),
        r matches Ok(call) ==> call@ == (InvocationView {
            program: ctx.whirlpool_program.key,
            instruction: Instruction::ClosePosition,
            accounts: ctx.accounts(),
        }),
        r matches Err(v) ==> first_failure(ctx.checks()) == Some(v),
{
    match ctx.validate() {
        Err(violation) => Err(violation),
        Ok(_) => {
            let accounts: Vec<Pubkey> = vec![
                ctx.position_authority.key,
                ctx.receiver.key,
                ctx.position.info.key,
                ctx.position_mint.key,
                ctx.position_token_account.info.key,
                ctx.token_program.key,
            ];
            Ok(
                Invocation {
                    program: ctx.whirlpool_program.key,
                    instruction: Instruction::ClosePosition,
                    accounts,
                },
            )
        },
    }
}

} // verus!
