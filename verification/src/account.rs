//! The accounts that an instruction is handed, as plain values.
//!
//! Each record holds the fields of the exchange program's account that the
//! forwarder reads, and nothing else. Turning account data into a record is
//! the caller's part.

use vstd::prelude::*;
use crate::pubkey::Pubkey;

verus! {

/// What the runtime tells of an account: where it is, whether it signed the
/// transaction, whether the transaction may write to it.
#[derive(Clone, Copy, Debug, PartialEq, Eq)]
pub struct AccountInfo {
    pub key: Pubkey,
    pub is_signer: bool,
    pub is_writable: bool,
}

/// An account together with the record read from its data.
#[derive(Clone, Debug, PartialEq, Eq)]
pub struct Account<T> {
    pub info: AccountInfo,
    pub data: T,
}

/// A token account: which mint it belongs to and how much it holds.
#[derive(Clone, Copy, Debug, PartialEq, Eq)]
pub struct TokenAccount {
    pub mint: Pubkey,
    pub amount: u64,
}

/// One entry of a pool's reward table.
#[derive(Clone, Copy, Debug, PartialEq, Eq)]
pub struct RewardInfo {
    pub mint: Pubkey,
    pub vault: Pubkey,
}

/// A pool: the mints and vaults of its two sides, and its reward table.
#[derive(Clone, Debug, PartialEq, Eq)]
pub struct Whirlpool {
    pub token_mint_a: Pubkey,
    pub token_vault_a: Pubkey,
    pub token_mint_b: Pubkey,
    pub token_vault_b: Pubkey,
    pub reward_infos: Vec<RewardInfo>,
}

/// A position: the pool it lies in and the mint of its token.
#[derive(Clone, Copy, Debug, PartialEq, Eq)]
pub struct Position {
    pub whirlpool: Pubkey,
    pub position_mint: Pubkey,
}

/// A tick array: the pool it belongs to.
#[derive(Clone, Copy, Debug, PartialEq, Eq)]
pub struct TickArray {
    pub whirlpool: Pubkey,
}

impl Whirlpool {
    /// The reward table entry at `index`, where there is one.
    pub open spec fn reward(&self, index: u8) -> Option<RewardInfo> {
        if index < self.reward_infos@.len() {
            Some(self.reward_infos@[index as int])
        } else {
            None
        }
    }

    /// The table has an entry at `index` exactly when `index` lies below its
    /// length.
    pub proof fn lemma_reward_in_range(&self, index: u8)
        ensures
            self.reward(index) is Some <==> index < self.reward_infos@.len(),
    {
    }

    /// Looks up the reward table entry at `index`.
    pub fn reward_at(&self, index: u8) -> (entry: Option<RewardInfo>)
        ensures
            entry == self.reward(index),
    {
        let i: usize = index as usize;
        if i < self.reward_infos.len() {
            Some(self.reward_infos[i])
        } else {
            None
        }
    }
}

} // verus!
