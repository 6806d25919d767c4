//! Collecting a reward of a position.

use vstd::prelude::*;
use crate::account::{Account, AccountInfo, Position, TokenAccount, Whirlpool};
use crate::constraint::{
    all_hold, first_failure, first_failure_from, lemma_first_failure, AccountName, Check, Rule,
    Violation,
};
use crate::invocation::{Instruction, Invocation, InvocationView};
use crate::pubkey::{Pubkey, TOKEN_PROGRAM_ID, WHIRLPOOL_PROGRAM_ID};

verus! {

/// The accounts for collecting one of the rewards that a position has earned.
#[derive(Clone, Debug, PartialEq, Eq)]
pub struct CollectRewardCPI {
    pub whirlpool_program: AccountInfo,
    pub whirlpool: Account<Whirlpool>,
    pub position_authority: AccountInfo,
    pub position: Account<Position>,
    pub position_token_account: Account<TokenAccount>,
    pub reward_owner_account: Account<TokenAccount>,
    pub reward_vault: Account<TokenAccount>,
    pub token_program: AccountInfo,
}

impl CollectRewardCPI {
    /// The constraints on the account set for the reward at `reward_index`, in the order
    /// in which they are judged: first what each account has to be, then what is asked
    /// of each.
    pub open spec fn checks(&self, reward_index: u8) -> Seq<Check> {
        seq![
            Check {
                account: AccountName::WhirlpoolProgram,
                rule: Rule::Program,
                holds: self.whirlpool_program.key == (Pubkey { bytes: WHIRLPOOL_PROGRAM_ID }),
            },
            Check {
                account: AccountName::PositionAuthority,
                rule: Rule::Signer,
                holds: self.position_authority.is_signer,
            },
            Check {
                account: AccountName::TokenProgram,
                rule: Rule::Program,
                holds: self.token_program.key == (Pubkey { bytes: TOKEN_PROGRAM_ID }),
            },
            Check {
                account: AccountName::Position,
                rule: Rule::Writable,
                holds: self.position.info.is_writable,
            },
            Check {
                account: AccountName::Position,
                rule: Rule::Pool,
                holds: self.position.data.whirlpool == self.whirlpool.info.key,
            },
            Check {
                account: AccountName::PositionTokenAccount,
                rule: Rule::Mint,
                holds: self.position_token_account.data.mint == self.position.data.position_mint,
            },
            Check {
                account: AccountName::PositionTokenAccount,
                rule: Rule::Amount,
                holds: self.position_token_account.data.amount == 1,
            },
            Check {
                account: AccountName::RewardOwnerAccount,
                rule: Rule::Writable,
                holds: self.reward_owner_account.info.is_writable,
            },
            Check {
                account: AccountName::RewardOwnerAccount,
                rule: Rule::Mint,
                holds: reward_index < self.whirlpool.data.reward_infos@.len()
                    && self.reward_owner_account.data.mint
                        == self.whirlpool.data.reward_infos@[reward_index as int].mint,
            },
            Check {
                account: AccountName::RewardVault,
                rule: Rule::Writable,
                holds: self.reward_vault.info.is_writable,
            },
            Check {
                account: AccountName::RewardVault,
                rule: Rule::Address,
                holds: reward_index < self.whirlpool.data.reward_infos@.len()
                    && self.reward_vault.info.key
                        == self.whirlpool.data.reward_infos@[reward_index as int].vault,
            },
        ]
    }

    /// The account set is valid for the reward at `reward_index`: the position
    /// authority has signed, the two programs are the ones they are named for, and
    /// the position, the owner account and the vault are writable. The position lies
    /// in the pool. The position token account is of the position's mint and holds
    /// exactly one unit. The pool's reward table has an entry at `reward_index`, the
    /// owner account is of that entry's mint, and the vault is that entry's vault.
    pub open spec fn valid(&self, reward_index: u8) -> bool {
        &&& self.position_authority.is_signer
        &&& self.whirlpool_program.key == (Pubkey { bytes: WHIRLPOOL_PROGRAM_ID })
        &&& self.token_program.key == (Pubkey { bytes: TOKEN_PROGRAM_ID })
        &&& self.position.info.is_writable
        &&& self.reward_owner_account.info.is_writable
        &&& self.reward_vault.info.is_writable
        &&& self.position.data.whirlpool == self.whirlpool.info.key
        &&& self.position_token_account.data.mint == self.position.data.position_mint
        &&& self.position_token_account.data.amount == 1
        &&& reward_index < self.whirlpool.data.reward_infos@.len()
        &&& self.reward_owner_account.data.mint
            == self.whirlpool.data.reward_infos@[reward_index as int].mint
        &&& self.reward_vault.info.key
            == self.whirlpool.data.reward_infos@[reward_index as int].vault
    }

    /// The checks hold together exactly when the account set is valid.
    pub proof fn lemma_checks_decide_validity(&self, reward_index: u8)
        ensures
            all_hold(self.checks(reward_index)) <==> self.valid(reward_index),
    {
        reveal_with_fuel(first_failure_from, 12);
        lemma_first_failure(self.checks(reward_index));
    }

    /// The accounts that the exchange program is handed, in the order in which
    /// its instruction takes them.
    pub open spec fn accounts(&self) -> Seq<Pubkey> {
        seq![
            self.whirlpool.info.key,
            self.position_authority.key,
            self.position.info.key,
            self.position_token_account.info.key,
            self.reward_owner_account.info.key,
            self.reward_vault.info.key,
            self.token_program.key,
        ]
    }

    /// Judges the constraints in their order and stops at the first that the
    /// account set does not meet.
    pub fn validate(&self, reward_index: u8) -> (r: Result<(), Violation>)
        ensures
            r is Ok <==> self.valid(reward_index),
            r matches Err(v) ==> first_failure(self.checks(reward_index)) == Some(v),
    {
        proof {
            reveal_with_fuel(first_failure_from, 12);
            self.lemma_checks_decide_validity(reward_index);
        }
        if self.whirlpool_program.key != (Pubkey { bytes: WHIRLPOOL_PROGRAM_ID }) {
            return Err(Violation { account: AccountName::WhirlpoolProgram, rule: Rule::Program });
        }
        if !self.position_authority.is_signer {
            return Err(Violation { account: AccountName::PositionAuthority, rule: Rule::Signer });
        }
        if self.token_program.key != (Pubkey { bytes: TOKEN_PROGRAM_ID }) {
            return Err(Violation { account: AccountName::TokenProgram, rule: Rule::Program });
        }
        if !self.position.info.is_writable {
            return Err(Violation { account: AccountName::Position, rule: Rule::Writable });
        }
        if self.position.data.whirlpool != self.whirlpool.info.key {
            return Err(Violation { account: AccountName::Position, rule: Rule::Pool });
        }
        if self.position_token_account.data.mint != self.position.data.position_mint {
            return Err(Violation { account: AccountName::PositionTokenAccount, rule: Rule::Mint });
        }
        if self.position_token_account.data.amount != 1 {
            return Err(
                Violation { account: AccountName::PositionTokenAccount, rule: Rule::Amount },
            );
        }
        if !self.reward_owner_account.info.is_writable {
            return Err(
                Violation { account: AccountName::RewardOwnerAccount, rule: Rule::Writable },
            );
        }
        let entry = self.whirlpool.data.reward_at(reward_index);
        let mint_matches = match entry {
            Some(reward) => self.reward_owner_account.data.mint == reward.mint,
            None => false,
        };
        let vault_matches = match entry {
            Some(reward) => self.reward_vault.info.key == reward.vault,
            None => false,
        };
        if !mint_matches {
            return Err(Violation { account: AccountName::RewardOwnerAccount, rule: Rule::Mint });
        }
        if !self.reward_vault.info.is_writable {
            return Err(Violation { account: AccountName::RewardVault, rule: Rule::Writable });
        }
        if !vault_matches {
            return Err(Violation { account: AccountName::RewardVault, rule: Rule::Address });
        }
        Ok(())
    }

    /// A valid account set is valid by the entry of the reward table at
    /// `reward_index`: the table has that entry, the owner account is of its
    /// mint and the vault is its vault.
    pub proof fn lemma_valid_resolves_entry(&self, reward_index: u8)
        requires
            self.valid(reward_index),
        ensures
            reward_index < self.whirlpool.data.reward_infos@.len(),
            self.reward_owner_account.data.mint
                == self.whirlpool.data.reward_infos@[reward_index as int].mint,
            self.reward_vault.info.key
                == self.whirlpool.data.reward_infos@[reward_index as int].vault,
    {
    }

    /// An index beyond the reward table makes the account set invalid, and so
    /// does an entry that the owner account or the vault does not match. The
    /// two are reported alike.
    pub proof fn lemma_unresolved_entry_invalid(&self, reward_index: u8)
        requires
            reward_index >= self.whirlpool.data.reward_infos@.len() || {
                let reward = self.whirlpool.data.reward_infos@[reward_index as int];
                self.reward_owner_account.data.mint != reward.mint
                    || self.reward_vault.info.key != reward.vault
            },
        ensures
            !self.valid(reward_index),
            first_failure(self.checks(reward_index)) is Some,
    {
        self.lemma_checks_decide_validity(reward_index);
        lemma_first_failure(self.checks(reward_index));
    }
}

/// Collects the reward at `reward_index` of a position: validates the account set
/// against that entry of the pool's reward table, then hands the call on with the
/// index as it was given.
pub fn collect_reward(
    ctx: CollectRewardCPI,
    reward_index: u8,
) -> (r: Result<Invocation, Violation>)
    ensures
        r is Ok <==> ctx.valid(reward_index),
        r matches Ok(call) ==> call@ == (InvocationView {
            program: ctx.whirlpool_program.key,
            instruction: Instruction::CollectReward { reward_index },
            accounts: ctx.accounts(),
        }),
        r matches Err(v) ==> first_failure(ctx.checks(reward_index)) == Some(v),
{
    match ctx.validate(reward_index) {
        Err(violation) => Err(violation),
        Ok(_) => {
            let accounts: Vec<Pubkey> = vec![
                ctx.whirlpool.info.key,
                ctx.position_authority.key,
                ctx.position.info.key,
                ctx.position_token_account.info.key,
                ctx.reward_owner_account.info.key,
                ctx.reward_vault.info.key,
                ctx.token_program.key,
            ];
            Ok(
                Invocation {
                    program: ctx.whirlpool_program.key,
                    instruction: Instruction::CollectReward { reward_index },
                    accounts,
                },
            )
        },
    }
}

} // verus!
