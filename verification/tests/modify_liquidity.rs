use orcatest::{
    decrease_liquidity, increase_liquidity, Account, AccountInfo, AccountName, Instruction,
    Invocation, ModifyLiquidityCPI, Position, Pubkey, Rule, TickArray, TokenAccount, Violation,
    Whirlpool, SYSTEM_PROGRAM_ID, TOKEN_PROGRAM_ID, WHIRLPOOL_PROGRAM_ID,
};

fn key(n: u8) -> Pubkey {
    Pubkey::new([n; 32])
}

fn info(key: Pubkey, is_signer: bool, is_writable: bool) -> AccountInfo {
    AccountInfo { key, is_signer, is_writable }
}

fn token(at: u8, mint: u8, amount: u64, is_writable: bool) -> Account<TokenAccount> {
    Account {
        info: info(key(at), false, is_writable),
        data: TokenAccount { mint: key(mint), amount },
    }
}

const POOL: u8 = 6;
const MINT_A: u8 = 20;
const VAULT_A: u8 = 21;
const MINT_B: u8 = 22;
const VAULT_B: u8 = 23;
const POSITION_MINT: u8 = 4;

fn valid_liquidity() -> ModifyLiquidityCPI {
    ModifyLiquidityCPI {
        whirlpool_program: info(Pubkey::new(WHIRLPOOL_PROGRAM_ID), false, false),
        whirlpool: Account {
            info: info(key(POOL), false, true),
            data: Whirlpool {
                token_mint_a: key(MINT_A),
                token_vault_a: key(VAULT_A),
                token_mint_b: key(MINT_B),
                token_vault_b: key(VAULT_B),
                reward_infos: vec![],
            },
        },
        token_program: info(Pubkey::new(TOKEN_PROGRAM_ID), false, false),
        position_authority: info(key(1), true, false),
        position: Account {
            info: info(key(3), false, true),
            data: Position { whirlpool: key(POOL), position_mint: key(POSITION_MINT) },
        },
        position_token_account: token(5, POSITION_MINT, 1, false),
        token_owner_account_a: token(30, MINT_A, 1_000, true),
        token_owner_account_b: token(31, MINT_B, 2_000, true),
        token_vault_a: token(VAULT_A, MINT_A, 50_000, true),
        token_vault_b: token(VAULT_B, MINT_B, 60_000, true),
        tick_array_lower: Account {
            info: info(key(40), false, true),
            data: TickArray { whirlpool: key(POOL) },
        },
        tick_array_upper: Account {
            info: info(key(41), false, true),
            data: TickArray { whirlpool: key(POOL) },
        },
    }
}

fn expected_accounts() -> Vec<Pubkey> {
    vec![
        key(POOL),
        Pubkey::new(TOKEN_PROGRAM_ID),
        key(1),
        key(3),
        key(5),
        key(30),
        key(31),
        key(VAULT_A),
        key(VAULT_B),
        key(40),
        key(41),
    ]
}

fn refused(account: AccountName, rule: Rule) -> Result<Invocation, Violation> {
    Err(Violation { account, rule })
}

type Change = fn(&mut ModifyLiquidityCPI);

fn case(change: Change, account: AccountName, rule: Rule) -> (Change, AccountName, Rule) {
    (change, account, rule)
}

/// One change for each constraint, which breaks that constraint alone, in the
/// order in which the constraints are judged.
fn changes() -> Vec<(Change, AccountName, Rule)> {
    vec![
        case(|c| c.whirlpool_program.key = key(0), AccountName::WhirlpoolProgram, Rule::Program),
        case(
            |c| c.token_program.key = Pubkey::new(SYSTEM_PROGRAM_ID),
            AccountName::TokenProgram,
            Rule::Program,
        ),
        case(
            |c| c.position_authority.is_signer = false,
            AccountName::PositionAuthority,
            Rule::Signer,
        ),
        case(|c| c.whirlpool.info.is_writable = false, AccountName::Whirlpool, Rule::Writable),
        case(|c| c.position.info.is_writable = false, AccountName::Position, Rule::Writable),
        case(|c| c.position.data.whirlpool = key(77), AccountName::Position, Rule::Pool),
        case(
            |c| c.position_token_account.data.mint = key(77),
            AccountName::PositionTokenAccount,
            Rule::Mint,
        ),
        case(
            |c| c.position_token_account.data.amount = 0,
            AccountName::PositionTokenAccount,
            Rule::Amount,
        ),
        case(
            |c| c.token_owner_account_a.info.is_writable = false,
            AccountName::TokenOwnerAccountA,
            Rule::Writable,
        ),
        case(
            |c| c.token_owner_account_a.data.mint = key(MINT_B),
            AccountName::TokenOwnerAccountA,
            Rule::Mint,
        ),
        case(
            |c| c.token_owner_account_b.info.is_writable = false,
            AccountName::TokenOwnerAccountB,
            Rule::Writable,
        ),
        case(
            |c| c.token_owner_account_b.data.mint = key(MINT_A),
            AccountName::TokenOwnerAccountB,
            Rule::Mint,
        ),
        case(
            |c| c.token_vault_a.info.is_writable = false,
            AccountName::TokenVaultA,
            Rule::Writable,
        ),
        case(|c| c.token_vault_a.info.key = key(VAULT_B), AccountName::TokenVaultA, Rule::Address),
        case(
            |c| c.token_vault_b.info.is_writable = false,
            AccountName::TokenVaultB,
            Rule::Writable,
        ),
        case(|c| c.token_vault_b.info.key = key(VAULT_A), AccountName::TokenVaultB, Rule::Address),
        case(
            |c| c.tick_array_lower.info.is_writable = false,
            AccountName::TickArrayLower,
            Rule::Writable,
        ),
        case(
            |c| c.tick_array_lower.data.whirlpool = key(77),
            AccountName::TickArrayLower,
            Rule::Pool,
        ),
        case(
            |c| c.tick_array_upper.info.is_writable = false,
            AccountName::TickArrayUpper,
            Rule::Writable,
        ),
        case(
            |c| c.tick_array_upper.data.whirlpool = key(77),
            AccountName::TickArrayUpper,
            Rule::Pool,
        ),
    ]
}

fn broken(by: &[Change]) -> ModifyLiquidityCPI {
    let mut ctx = valid_liquidity();
    for change in by {
        change(&mut ctx);
    }
    ctx
}

#[test]
fn increase_liquidity_hands_on_one_call_with_the_same_arguments() {
    let call = increase_liquidity(valid_liquidity(), 1_000_000, 500, 700).unwrap();
    assert_eq!(call.program, Pubkey::new(WHIRLPOOL_PROGRAM_ID));
    assert_eq!(
        call.instruction,
        Instruction::IncreaseLiquidity {
            liquidity_amount: 1_000_000,
            token_max_a: 500,
            token_max_b: 700,
        }
    );
    assert_eq!(call.accounts, expected_accounts());
}

#[test]
fn decrease_liquidity_hands_on_one_call_with_the_same_arguments() {
    let call = decrease_liquidity(valid_liquidity(), 1_000_000, 500, 700).unwrap();
    assert_eq!(call.program, Pubkey::new(WHIRLPOOL_PROGRAM_ID));
    assert_eq!(
        call.instruction,
        Instruction::DecreaseLiquidity {
            liquidity_amount: 1_000_000,
            token_min_a: 500,
            token_min_b: 700,
        }
    );
    assert_eq!(call.accounts, expected_accounts());
}

#[test]
fn increase_and_decrease_are_different_instructions() {
    let up = increase_liquidity(valid_liquidity(), 9, 8, 7).unwrap();
    let down = decrease_liquidity(valid_liquidity(), 9, 8, 7).unwrap();
    assert_ne!(up.instruction, down.instruction);
    assert_eq!(up.accounts, down.accounts);
}

#[test]
fn liquidity_amounts_are_not_judged() {
    let amounts = [
        (0u128, 0u64, 0u64),
        (u128::MAX, 0, 0),
        (u128::MAX, u64::MAX, u64::MAX),
        (1, u64::MAX, 0),
        (0, 0, u64::MAX),
    ];
    for (liquidity, a, b) in amounts {
        let up = increase_liquidity(valid_liquidity(), liquidity, a, b).unwrap();
        assert_eq!(
            up.instruction,
            Instruction::IncreaseLiquidity {
                liquidity_amount: liquidity,
                token_max_a: a,
                token_max_b: b,
            }
        );
        let down = decrease_liquidity(valid_liquidity(), liquidity, a, b).unwrap();
        assert_eq!(
            down.instruction,
            Instruction::DecreaseLiquidity {
                liquidity_amount: liquidity,
                token_min_a: a,
                token_min_b: b,
            }
        );
    }
}

#[test]
fn liquidity_balances_are_not_judged() {
    let mut ctx = valid_liquidity();
    ctx.token_owner_account_a.data.amount = 0;
    ctx.token_owner_account_b.data.amount = 0;
    ctx.token_vault_a.data.amount = 0;
    ctx.token_vault_b.data.amount = u64::MAX;
    assert!(increase_liquidity(ctx.clone(), u128::MAX, 1, 1).is_ok());
    assert!(decrease_liquidity(ctx, u128::MAX, u64::MAX, u64::MAX).is_ok());
}

#[test]
fn an_exchange_failure_on_the_bounds_comes_back_unchanged() {
    let call = increase_liquidity(valid_liquidity(), u128::MAX, 0, 0).unwrap();
    let token_max_exceeded = 0x1781u32;
    assert_eq!(
        call.conclude(Err(token_max_exceeded)),
        Err(orcatest::ForwardError::Delegated(token_max_exceeded))
    );
    let call = decrease_liquidity(valid_liquidity(), 1, u64::MAX, u64::MAX).unwrap();
    let token_min_subceeded = 0x1782u32;
    assert_eq!(
        call.conclude(Err(token_min_subceeded)),
        Err(orcatest::ForwardError::Delegated(token_min_subceeded))
    );
}

#[test]
fn increase_liquidity_reports_each_broken_constraint() {
    let cases = changes();
    assert_eq!(cases.len(), 20);
    for (change, account, rule) in cases {
        assert_eq!(increase_liquidity(broken(&[change]), 10, 20, 30), refused(account, rule));
    }
}

#[test]
fn decrease_liquidity_reports_each_broken_constraint() {
    for (change, account, rule) in changes() {
        let ctx = broken(&[change]);
        assert_eq!(ctx.validate(), Err(Violation { account, rule }));
        assert_eq!(decrease_liquidity(ctx, 10, 20, 30), refused(account, rule));
    }
}

#[test]
fn liquidity_reports_the_earliest_of_two_broken_constraints() {
    let cases = changes();
    for early in 0..cases.len() {
        for late in early + 1..cases.len() {
            let ctx = broken(&[cases[late].0, cases[early].0]);
            let expected = refused(cases[early].1, cases[early].2);
            assert_eq!(increase_liquidity(ctx.clone(), 1, 1, 1), expected);
            assert_eq!(decrease_liquidity(ctx, 1, 1, 1), expected);
        }
    }
}

#[test]
fn liquidity_with_every_constraint_broken_reports_the_first() {
    let all: Vec<Change> = changes().into_iter().map(|(change, _, _)| change).collect();
    assert_eq!(
        increase_liquidity(broken(&all), 1, 1, 1),
        refused(AccountName::WhirlpoolProgram, Rule::Program)
    );
}

#[test]
fn position_token_account_must_hold_exactly_one_unit() {
    for amount in [0u64, 2, 3, 1_000, u64::MAX] {
        let mut ctx = valid_liquidity();
        ctx.position_token_account.data.amount = amount;
        assert_eq!(
            increase_liquidity(ctx.clone(), 1, 1, 1),
            refused(AccountName::PositionTokenAccount, Rule::Amount)
        );
        assert_eq!(
            decrease_liquidity(ctx, 1, 1, 1),
            refused(AccountName::PositionTokenAccount, Rule::Amount)
        );
    }
}

#[test]
fn position_token_account_need_not_be_writable() {
    let mut ctx = valid_liquidity();
    ctx.position_token_account.info.is_writable = true;
    assert!(increase_liquidity(ctx.clone(), 1, 1, 1).is_ok());
    ctx.position_token_account.info.is_writable = false;
    assert!(increase_liquidity(ctx, 1, 1, 1).is_ok());
}

#[test]
fn vaults_must_be_the_ones_the_pool_records() {
    let mut ctx = valid_liquidity();
    ctx.whirlpool.data.token_vault_a = key(88);
    assert_eq!(
        increase_liquidity(ctx, 1, 1, 1),
        refused(AccountName::TokenVaultA, Rule::Address)
    );
    let mut ctx = valid_liquidity();
    ctx.whirlpool.data.token_vault_b = key(88);
    assert_eq!(
        decrease_liquidity(ctx, 1, 1, 1),
        refused(AccountName::TokenVaultB, Rule::Address)
    );
}

#[test]
fn a_vault_is_told_by_its_address_not_by_its_mint() {
    let mut ctx = valid_liquidity();
    ctx.token_vault_a.data.mint = key(99);
    ctx.token_vault_b.data.mint = key(98);
    assert!(increase_liquidity(ctx, 1, 1, 1).is_ok());
}

#[test]
fn tick_arrays_of_another_pool_are_refused() {
    let mut ctx = valid_liquidity();
    ctx.whirlpool.info.key = key(66);
    ctx.position.data.whirlpool = key(66);
    assert_eq!(
        increase_liquidity(ctx.clone(), 1, 1, 1),
        refused(AccountName::TickArrayLower, Rule::Pool)
    );
    ctx.tick_array_lower.data.whirlpool = key(66);
    assert_eq!(
        increase_liquidity(ctx.clone(), 1, 1, 1),
        refused(AccountName::TickArrayUpper, Rule::Pool)
    );
    ctx.tick_array_upper.data.whirlpool = key(66);
    let call = increase_liquidity(ctx, 1, 1, 1).unwrap();
    assert_eq!(call.accounts[0], key(66));
}
