//! Opening a position.

use vstd::prelude::*;
use crate::account::{Account, AccountInfo, Whirlpool};
use crate::constraint::{
    all_hold, first_failure, first_failure_from, lemma_first_failure, AccountName, Check, Rule,
    Violation,
};
use crate::invocation::{Instruction, Invocation, InvocationView};
use crate::pubkey::{
    Pubkey, ASSOCIATED_TOKEN_PROGRAM_ID, RENT_SYSVAR_ID, SYSTEM_PROGRAM_ID, TOKEN_PROGRAM_ID,
    WHIRLPOOL_PROGRAM_ID,
};

verus! {

/// The accounts for opening a position in a pool.
#[derive(Clone, Debug, PartialEq, Eq)]
pub struct OpenPositionCPI {
    pub funder: AccountInfo,
    pub owner: AccountInfo,
    pub position: AccountInfo,
    pub position_mint: AccountInfo,
    pub position_token_account: AccountInfo,
    pub whirlpool: Account<Whirlpool>,
    pub whirlpool_program: AccountInfo,
    pub token_program: AccountInfo,
    pub system_program: AccountInfo,
    pub rent: AccountInfo,
    pub associated_token_program: AccountInfo,
}

impl OpenPositionCPI {
    /// The constraints on the account set, in the order in which they are judged:
    /// first what each account has to be, then what is asked of each.
    pub open spec fn checks(&self) -> Seq<Check> {
        seq![
            Check {
                account: AccountName::Funder,
                rule: Rule::Signer,
                holds: self.funder.is_signer,
            },
            Check {
                account: AccountName::PositionMint,
                rule: Rule::Signer,
                holds: self.position_mint.is_signer,
            },
            Check {
                account: AccountName::WhirlpoolProgram,
                rule: Rule::Program,
                holds: self.whirlpool_program.key == (Pubkey { bytes: WHIRLPOOL_PROGRAM_ID }),
            },
            Check {
                account: AccountName::TokenProgram,
                rule: Rule::Program,
                holds: self.token_program.key == (Pubkey { bytes: TOKEN_PROGRAM_ID }),
            },
            Check {
                account: AccountName::SystemProgram,
                rule: Rule::Program,
                holds: self.system_program.key == (Pubkey { bytes: SYSTEM_PROGRAM_ID }),
            },
            Check {
                account: AccountName::Rent,
                rule: Rule::Sysvar,
                holds: self.rent.key == (Pubkey { bytes: RENT_SYSVAR_ID }),
            },
            Check {
                account: AccountName::AssociatedTokenProgram,
                rule: Rule::Program,
                holds: self.associated_token_program.key
                    == (Pubkey { bytes: ASSOCIATED_TOKEN_PROGRAM_ID }),
            },
            Check {
                account: AccountName::Funder,
                rule: Rule::Writable,
                holds: self.funder.is_writable,
            },
            Check {
                account: AccountName::Owner,
                rule: Rule::Writable,
                holds: self.owner.is_writable,
            },
            Check {
                account: AccountName::Position,
                rule: Rule::Writable,
                holds: self.position.is_writable,
            },
            Check {
                account: AccountName::PositionMint,
                rule: Rule::Writable,
                holds: self.position_mint.is_writable,
            },
            Check {
                account: AccountName::PositionTokenAccount,
                rule: Rule::Writable,
                holds: self.position_token_account.is_writable,
            },
            Check {
                account: AccountName::Whirlpool,
                rule: Rule::Writable,
                holds: self.whirlpool.info.is_writable,
            },
        ]
    }

    /// The account set is valid: the funder and the mint of the new position have
    /// signed, the four programs and the rent sysvar are the ones they are named
    /// for, and whatever the exchange program will write to is writable.
    pub open spec fn valid(&self) -> bool {
        &&& self.funder.is_signer
        &&& self.position_mint.is_signer
        &&& self.whirlpool_program.key == (Pubkey { bytes: WHIRLPOOL_PROGRAM_ID })
        &&& self.token_program.key == (Pubkey { bytes: TOKEN_PROGRAM_ID })
        &&& self.system_program.key == (Pubkey { bytes: SYSTEM_PROGRAM_ID })
        &&& self.rent.key == (Pubkey { bytes: RENT_SYSVAR_ID })
        &&& self.associated_token_program.key == (Pubkey { bytes: ASSOCIATED_TOKEN_PROGRAM_ID })
        &&& self.funder.is_writable
        &&& self.owner.is_writable
        &&& self.position.is_writable
        &&& self.position_mint.is_writable
        &&& self.position_token_account.is_writable
        &&& self.whirlpool.info.is_writable
    }

    /// The checks hold together exactly when the account set is valid.
    pub proof fn lemma_checks_decide_validity(&self)
        ensures
            all_hold(self.checks()) <==> self.valid(),
    {
        reveal_with_fuel(first_failure_from, 14);
        lemma_first_failure(self.checks());
    }

    /// The accounts that the exchange program is handed, in the order in which
    /// its instruction takes them.
    pub open spec fn accounts(&self) -> Seq<Pubkey> {
        seq![
            self.funder.key,
            self.owner.key,
            self.position.key,
            self.position_mint.key,
            self.position_token_account.key,
            self.whirlpool.info.key,
            self.token_program.key,
            self.system_program.key,
            self.rent.key,
            self.associated_token_program.key,
        ]
    }

    /// Judges the constraints in their order and stops at the first that the
    /// account set does not meet.
    pub fn validate(&self) -> (r: Result<(), Violation>)
        ensures
            r is Ok <==> self.valid(),
            r matches Err(v) ==> first_failure(self.checks()) == Some(v),
    {
        proof {
            reveal_with_fuel(first_failure_from, 14);
            self.lemma_checks_decide_validity();
        }
        if !self.funder.is_signer {
            return Err(Violation { account: AccountName::Funder, rule: Rule::Signer });
        }
        if !self.position_mint.is_signer {
            return Err(Violation { account: AccountName::PositionMint, rule: Rule::Signer });
        }
        if self.whirlpool_program.key != (Pubkey { bytes: WHIRLPOOL_PROGRAM_ID }) {
            return Err(Violation { account: AccountName::WhirlpoolProgram, rule: Rule::Program });
        }
        if self.token_program.key != (Pubkey { bytes: TOKEN_PROGRAM_ID }) {
            return Err(Violation { account: AccountName::TokenProgram, rule: Rule::Program });
        }
        if self.system_program.key != (Pubkey { bytes: SYSTEM_PROGRAM_ID }) {
            return Err(Violation { account: AccountName::SystemProgram, rule: Rule::Program });
        }
        if self.rent.key != (Pubkey { bytes: RENT_SYSVAR_ID }) {
            return Err(Violation { account: AccountName::Rent, rule: Rule::Sysvar });
        }
        if self.associated_token_program.key != (Pubkey { bytes: ASSOCIATED_TOKEN_PROGRAM_ID }) {
            return Err(
                Violation { account: AccountName::AssociatedTokenProgram, rule: Rule::Program },
            );
        }
        if !self.funder.is_writable {
            return Err(Violation { account: AccountName::Funder, rule: Rule::Writable });
        }
        if !self.owner.is_writable {
            return Err(Violation { account: AccountName::Owner, rule: Rule::Writable });
        }
        if !self.position.is_writable {
            return Err(Violation { account: AccountName::Position, rule: Rule::Writable });
        }
        if !self.position_mint.is_writable {
            return Err(Violation { account: AccountName::PositionMint, rule: Rule::Writable });
        }
        if !self.position_token_account.is_writable {
            return Err(
                Violation { account: AccountName::PositionTokenAccount, rule: Rule::Writable },
            );
        }
        if !self.whirlpool.info.is_writable {
            return Err(Violation { account: AccountName::Whirlpool, rule: Rule::Writable });
        }
        Ok(())
    }
}

/// Opens a position in a pool: validates the account set, then hands the call on
/// with the bump and the tick bounds as they were given.
pub fn open_position(
    ctx: OpenPositionCPI,
    position_bump: u8,
    tick_lower_index: i32,
    tick_upper_index: i32,
) -> (r: Result<Invocation, Violation>)
    ensures
        r is Ok <==> ctx.valid(),
        r matches Ok(call) ==> call@ == (InvocationView {
            program: ctx.whirlpool_program.key,
            instruction: Instruction::OpenPosition {
                position_bump,
                tick_lower_index,
                tick_upper_index,
            },
            accounts: ctx.accounts(),
        }),
        r matches Err(v) ==> first_failure(ctx.checks()) == Some(v),
{
    match ctx.validate() {
        Err(violation) => Err(violation),
        Ok(_) => {
            let accounts: Vec<Pubkey> = vec![
                ctx.funder.key,
                ctx.owner.key,
                ctx.position.key,
                ctx.position_mint.key,
                ctx.position_token_account.key,
                ctx.whirlpool.info.key,
                ctx.token_program.key,
                ctx.system_program.key,
                ctx.rent.key,
                ctx.associated_token_program.key,
            ];
            Ok(
                Invocation {
                    program: ctx.whirlpool_program.key,
                    instruction: Instruction::OpenPosition {
                        position_bump,
                        tick_lower_index,
                        tick_upper_index,
                    },
                    accounts,
                },
            )
        },
    }
}

} // verus!
