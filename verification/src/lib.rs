//! Account validation and call forwarding for the whirlpool exchange program.
//!
//! Each operation takes a set of accounts and a few numbers. It judges the
//! accounts against the constraints of the operation and, where all of them
//! are met, names the one call that is to be made to the exchange program,
//! with the numbers as they came. The caller makes that call and hands its
//! answer to [`Invocation::conclude`], which gives the outcome of the
//! operation.

pub mod account;
pub mod close_position;
pub mod collect_fees;
pub mod collect_reward;
pub mod constraint;
pub mod initialize_tick_array;
pub mod invocation;
pub mod modify_liquidity;
pub mod open_position;
pub mod pubkey;
pub mod update_fees_and_rewards;

pub use account::{Account, AccountInfo, Position, RewardInfo, TickArray, TokenAccount, Whirlpool};
pub use close_position::{close_position, ClosePositionCPI};
pub use collect_fees::{collect_fees, CollectFeesCPI};
pub use collect_reward::{collect_reward, CollectRewardCPI};
pub use constraint::{AccountName, Check, Rule, Violation};
pub use initialize_tick_array::{initialize_tick_array, InitializeTickArrayCPI};
pub use invocation::{ForwardError, Instruction, Invocation};
pub use modify_liquidity::{decrease_liquidity, increase_liquidity, ModifyLiquidityCPI};
pub use open_position::{open_position, OpenPositionCPI};
pub use pubkey::{
    Pubkey, ASSOCIATED_TOKEN_PROGRAM_ID, RENT_SYSVAR_ID, SYSTEM_PROGRAM_ID, TOKEN_PROGRAM_ID,
    WHIRLPOOL_PROGRAM_ID,
};
pub use update_fees_and_rewards::{update_fees_and_rewards, UpdateFeesAndRewardsCPI};
