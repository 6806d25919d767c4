//! Adding liquidity to a position and taking it out.

use vstd::prelude::*;
use crate::account::{Account, AccountInfo, Position, TickArray, TokenAccount, Whirlpool};
use crate::constraint::{
    all_hold, first_failure, first_failure_from, lemma_first_failure, AccountName, Check, Rule,
    Violation,
};
use crate::invocation::{Instruction, Invocation, InvocationView};
use crate::pubkey::{Pubkey, TOKEN_PROGRAM_ID, WHIRLPOOL_PROGRAM_ID};

verus! {

/// The accounts for changing the liquidity of a position.
#[derive(Clone, Debug, PartialEq, Eq)]
pub struct ModifyLiquidityCPI {
    pub whirlpool_program: AccountInfo,
    pub whirlpool: Account<Whirlpool>,
    pub token_program: AccountInfo,
    pub position_authority: AccountInfo,
    pub position: Account<Position>,
    pub position_token_account: Account<TokenAccount>,
    pub token_owner_account_a: Account<TokenAccount>,
    pub token_owner_account_b: Account<TokenAccount>,
    pub token_vault_a: Account<TokenAccount>,
    pub token_vault_b: Account<TokenAccount>,
    pub tick_array_lower: Account<TickArray>,
    pub tick_array_upper: Account<TickArray>,
}

impl ModifyLiquidityCPI {
    /// The constraints on the account set, in the order in which they are judged:
    /// first what each account has to be, then what is asked of each.
    pub open spec fn checks(&self) -> Seq<Check> {
        seq![
            Check {
                account: AccountName::WhirlpoolProgram,
                rule: Rule::Program,
                holds: self.whirlpool_program.key == (Pubkey { bytes: WHIRLPOOL_PROGRAM_ID }),
            },
            Check {
                account: AccountName::TokenProgram,
                rule: Rule::Program,
                holds: self.token_program.key == (Pubkey { bytes: TOKEN_PROGRAM_ID }),
            },
            Check {
                account: AccountName::PositionAuthority,
                rule: Rule::Signer,
                holds: self.position_authority.is_signer,
            },
            Check {
                account: AccountName::Whirlpool,
                rule: Rule::Writable,
                holds: self.whirlpool.info.is_writable,
            },
            Check {
                account: AccountName::Position,
                rule: Rule::Writable,
                holds: self.position.info.is_writable,
            },
            Check {
                account: AccountName::Position,
                rule: Rule::Pool,
                holds: self.position.data.whirlpool == self.whirlpool.info.key,
            },
            Check {
                account: AccountName::PositionTokenAccount,
                rule: Rule::Mint,
                holds: self.position_token_account.data.mint == self.position.data.position_mint,
            },
            Check {
                account: AccountName::PositionTokenAccount,
                rule: Rule::Amount,
                holds: self.position_token_account.data.amount == 1,
            },
            Check {
                account: AccountName::TokenOwnerAccountA,
                rule: Rule::Writable,
                holds: self.token_owner_account_a.info.is_writable,
            },
            Check {
                account: AccountName::TokenOwnerAccountA,
                rule: Rule::Mint,
                holds: self.token_owner_account_a.data.mint == self.whirlpool.data.token_mint_a,
            },
            Check {
                account: AccountName::TokenOwnerAccountB,
                rule: Rule::Writable,
                holds: self.token_owner_account_b.info.is_writable,
            },
            Check {
                account: AccountName::TokenOwnerAccountB,
                rule: Rule::Mint,
                holds: self.token_owner_account_b.data.mint == self.whirlpool.data.token_mint_b,
            },
            Check {
                account: AccountName::TokenVaultA,
                rule: Rule::Writable,
                holds: self.token_vault_a.info.is_writable,
            },
            Check {
                account: AccountName::TokenVaultA,
                rule: Rule::Address,
                holds: self.token_vault_a.info.key == self.whirlpool.data.token_vault_a,
            },
            Check {
                account: AccountName::TokenVaultB,
                rule: Rule::Writable,
                holds: self.token_vault_b.info.is_writable,
            },
            Check {
                account: AccountName::TokenVaultB,
                rule: Rule::Address,
                holds: self.token_vault_b.info.key == self.whirlpool.data.token_vault_b,
            },
            Check {
                account: AccountName::TickArrayLower,
                rule: Rule::Writable,
                holds: self.tick_array_lower.info.is_writable,
            },
            Check {
                account: AccountName::TickArrayLower,
                rule: Rule::Pool,
                holds: self.tick_array_lower.data.whirlpool == self.whirlpool.info.key,
            },
            Check {
                account: AccountName::TickArrayUpper,
                rule: Rule::Writable,
                holds: self.tick_array_upper.info.is_writable,
            },
            Check {
                account: AccountName::TickArrayUpper,
                rule: Rule::Pool,
                holds: self.tick_array_upper.data.whirlpool == self.whirlpool.info.key,
            },
        ]
    }

    /// The account set is valid: the position authority has signed, the two programs
    /// are the ones they are named for, and whatever the exchange program will write
    /// to is writable. The position and both tick arrays lie in the pool. The
    /// position token account is of the position's mint and holds exactly one unit.
    /// The owner accounts are of the pool's two mints, and the vaults are the ones
    /// that the pool records.
    pub open spec fn valid(&self) -> bool {
        &&& self.position_authority.is_signer
        &&& self.whirlpool_program.key == (Pubkey { bytes: WHIRLPOOL_PROGRAM_ID })
        &&& self.token_program.key == (Pubkey { bytes: TOKEN_PROGRAM_ID })
        &&& self.whirlpool.info.is_writable
        &&& self.position.info.is_writable
        &&& self.token_owner_account_a.info.is_writable
        &&& self.token_owner_account_b.info.is_writable
        &&& self.token_vault_a.info.is_writable
        &&& self.token_vault_b.info.is_writable
        &&& self.tick_array_lower.info.is_writable
        &&& self.tick_array_upper.info.is_writable
        &&& self.position.data.whirlpool == self.whirlpool.info.key
        &&& self.position_token_account.data.mint == self.position.data.position_mint
        &&& self.position_token_account.data.amount == 1
        &&& self.token_owner_account_a.data.mint == self.whirlpool.data.token_mint_a
        &&& self.token_owner_account_b.data.mint == self.whirlpool.data.token_mint_b
        &&& self.token_vault_a.info.key == self.whirlpool.data.token_vault_a
        &&& self.token_vault_b.info.key == self.whirlpool.data.token_vault_b
        &&& self.tick_array_lower.data.whirlpool == self.whirlpool.info.key
        &&& self.tick_array_upper.data.whirlpool == self.whirlpool.info.key
    }

    /// The checks hold together exactly when the account set is valid.
    pub proof fn lemma_checks_decide_validity(&self)
        ensures
            all_hold(self.checks()) <==> self.valid(),
    {
        reveal_with_fuel(first_failure_from, 21);
        lemma_first_failure(self.checks());
    }

    /// The accounts that the exchange program is handed, in the order in which
    /// its instruction takes them.
    pub open spec fn accounts(&self) -> Seq<Pubkey> {
        seq![
            self.whirlpool.info.key,
            self.token_program.key,
            self.position_authority.key,
            self.position.info.key,
            self.position_token_account.info.key,
            self.token_owner_account_a.info.key,
            self.token_owner_account_b.info.key,
            self.token_vault_a.info.key,
            self.token_vault_b.info.key,
            self.tick_array_lower.info.key,
            self.tick_array_upper.info.key,
        ]
    }

    /// Judges the constraints in their order and stops at the first that the
    /// account set does not meet.
    pub fn validate(&self) -> (r: Result<(), Violation>)
        ensures
            r is Ok <==> self.valid(),
            r matches Err(v) ==> first_failure(self.checks()) == Some(v),
    {
        proof {
            reveal_with_fuel(first_failure_from, 21);
            self.lemma_checks_decide_validity();
        }
        if self.whirlpool_program.key != (Pubkey { bytes: WHIRLPOOL_PROGRAM_ID }) {
            return Err(Violation { account: AccountName::WhirlpoolProgram, rule: Rule::Program });
        }
        if self.token_program.key != (Pubkey { bytes: TOKEN_PROGRAM_ID }) {
            return Err(Violation { account: AccountName::TokenProgram, rule: Rule::Program });
        }
        if !self.position_authority.is_signer {
            return Err(Violation { account: AccountName::PositionAuthority, rule: Rule::Signer });
        }
        if !self.whirlpool.info.is_writable {
            return Err(Violation { account: AccountName::Whirlpool, rule: Rule::Writable });
        }
        if !self.position.info.is_writable {
            return Err(Violation { account: AccountName::Position, rule: Rule::Writable });
        }
        if self.position.data.whirlpool != self.whirlpool.info.key {
            return Err(Violation { account: AccountName::Position, rule: Rule::Pool });
        }
        if self.position_token_account.data.mint != self.position.data.position_mint {
            return Err(Violation { account: AccountName::PositionTokenAccount, rule: Rule::Mint });
        }
        if self.position_token_account.data.amount != 1 {
            return Err(
                Violation { account: AccountName::PositionTokenAccount, rule: Rule::Amount },
            );
        }
        if !self.token_owner_account_a.info.is_writable {
            return Err(
                Violation { account: AccountName::TokenOwnerAccountA, rule: Rule::Writable },
            );
        }
        if self.token_owner_account_a.data.mint != self.whirlpool.data.token_mint_a {
            return Err(Violation { account: AccountName::TokenOwnerAccountA, rule: Rule::Mint });
        }
        if !self.token_owner_account_b.info.is_writable {
            return Err(
                Violation { account: AccountName::TokenOwnerAccountB, rule: Rule::Writable },
            );
        }
        if self.token_owner_account_b.data.mint != self.whirlpool.data.token_mint_b {
            return Err(Violation { account: AccountName::TokenOwnerAccountB, rule: Rule::Mint });
        }
        if !self.token_vault_a.info.is_writable {
            return Err(Violation { account: AccountName::TokenVaultA, rule: Rule::Writable });
        }
        if self.token_vault_a.info.key != self.whirlpool.data.token_vault_a {
            return Err(Violation { account: AccountName::TokenVaultA, rule: Rule::Address });
        }
        if !self.token_vault_b.info.is_writable {
            return Err(Violation { account: AccountName::TokenVaultB, rule: Rule::Writable });
        }
        if self.token_vault_b.info.key != self.whirlpool.data.token_vault_b {
            return Err(Violation { account: AccountName::TokenVaultB, rule: Rule::Address });
        }
        if !self.tick_array_lower.info.is_writable {
            return Err(Violation { account: AccountName::TickArrayLower, rule: Rule::Writable });
        }
        if self.tick_array_lower.data.whirlpool != self.whirlpool.info.key {
            return Err(Violation { account: AccountName::TickArrayLower, rule: Rule::Pool });
        }
        if !self.tick_array_upper.info.is_writable {
            return Err(Violation { account: AccountName::TickArrayUpper, rule: Rule::Writable });
        }
        if self.tick_array_upper.data.whirlpool != self.whirlpool.info.key {
            return Err(Violation { account: AccountName::TickArrayUpper, rule: Rule::Pool });
        }
        Ok(())
    }
}

/// Adds liquidity to a position: validates the account set, then hands the call on
/// with the amount and the two ceilings as they were given. Whether the ceilings
/// can be kept is for the exchange program to say.
pub fn increase_liquidity(
    ctx: ModifyLiquidityCPI,
    liquidity_amount: u128,
    token_max_a: u64,
    token_max_b: u64,
) -> (r: Result<Invocation, Violation>)
    ensures
        r is Ok <==> ctx.valid(),
        r matches Ok(call) ==> call@ == (InvocationView {
            program: ctx.whirlpool_program.key,
            instruction: Instruction::IncreaseLiquidity {
                liquidity_amount,
                token_max_a,
                token_max_b,
            },
            accounts: ctx.accounts(),
        }),
        r matches Err(v) ==> first_failure(ctx.checks()) == Some(v),
{
    match ctx.validate() {
        Err(violation) => Err(violation),
        Ok(_) => {
            let accounts: Vec<Pubkey> = vec![
                ctx.whirlpool.info.key,
                ctx.token_program.key,
                ctx.position_authority.key,
                ctx.position.info.key,
                ctx.position_token_account.info.key,
                ctx.token_owner_account_a.info.key,
                ctx.token_owner_account_b.info.key,
                ctx.token_vault_a.info.key,
                ctx.token_vault_b.info.key,
                ctx.tick_array_lower.info.key,
                ctx.tick_array_upper.info.key,
            ];
            Ok(
                Invocation {
                    program: ctx.whirlpool_program.key,
                    instruction: Instruction::IncreaseLiquidity {
                        liquidity_amount,
                        token_max_a,
                        token_max_b,
                    },
                    accounts,
                },
            )
        },
    }
}

/// Takes liquidity out of a position: validates the account set, then hands the
/// call on with the amount and the two floors as they were given. Whether the
/// floors can be kept is for the exchange program to say.
pub fn decrease_liquidity(
    ctx: ModifyLiquidityCPI,
    liquidity_amount: u128,
    token_min_a: u64,
    token_min_b: u64,
) -> (r: Result<Invocation, Violation>)
    ensures
        r is Ok <==> ctx.valid(),
        r matches Ok(call) ==> call@ == (InvocationView {
            program: ctx.whirlpool_program.key,
            instruction: Instruction::DecreaseLiquidity {
                liquidity_amount,
                token_min_a,
                token_min_b,
            },
            accounts: ctx.accounts(),
        }),
        r matches Err(v) ==> first_failure(ctx.checks()) == Some(v),
{
    match ctx.validate() {
        Err(violation) => Err(violation),
        Ok(_) => {
            let accounts: Vec<Pubkey> = vec![
                ctx.whirlpool.info.key,
                ctx.token_program.key,
                ctx.position_authority.key,
                ctx.position.info.key,
                ctx.position_token_account.info.key,
                ctx.token_owner_account_a.info.key,
                ctx.token_owner_account_b.info.key,
                ctx.token_vault_a.info.key,
                ctx.token_vault_b.info.key,
                ctx.tick_array_lower.info.key,
                ctx.tick_array_upper.info.key,
            ];
            Ok(
                Invocation {
                    program: ctx.whirlpool_program.key,
                    instruction: Instruction::DecreaseLiquidity {
                        liquidity_amount,
                        token_min_a,
                        token_min_b,
                    },
                    accounts,
                },
            )
        },
    }
}

} // verus!
