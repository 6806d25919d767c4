use orcatest::{
    initialize_tick_array, Account, AccountInfo, AccountName, InitializeTickArrayCPI, Instruction,
    Invocation, Pubkey, Rule, Violation, Whirlpool, SYSTEM_PROGRAM_ID, TOKEN_PROGRAM_ID,
    WHIRLPOOL_PROGRAM_ID,
};

fn key(n: u8) -> Pubkey {
    Pubkey::new([n; 32])
}

fn info(key: Pubkey, is_signer: bool, is_writable: bool) -> AccountInfo {
    AccountInfo { key, is_signer, is_writable }
}

fn valid_tick_array() -> InitializeTickArrayCPI {
    InitializeTickArrayCPI {
        whirlpool_program: info(Pubkey::new(WHIRLPOOL_PROGRAM_ID), false, false),
        whirlpool: Account {
            info: info(key(6), false, false),
            data: Whirlpool {
                token_mint_a: key(20),
                token_vault_a: key(21),
                token_mint_b: key(22),
                token_vault_b: key(23),
                reward_infos: vec![],
            },
        },
        funder: info(key(1), true, true),
        tick_array: info(key(7), false, true),
        system_program: info(Pubkey::new(SYSTEM_PROGRAM_ID), false, false),
    }
}

fn refused(account: AccountName, rule: Rule) -> Result<Invocation, Violation> {
    Err(Violation { account, rule })
}

#[test]
fn initialize_tick_array_hands_on_one_call_with_the_same_index() {
    for start in [0, -88, 5_632, i32::MIN, i32::MAX] {
        let call = initialize_tick_array(valid_tick_array(), start).unwrap();
        assert_eq!(call.program, Pubkey::new(WHIRLPOOL_PROGRAM_ID));
        assert_eq!(call.instruction, Instruction::InitializeTickArray { start_tick_index: start });
        assert_eq!(
            call.accounts,
            vec![key(6), key(1), key(7), Pubkey::new(SYSTEM_PROGRAM_ID)]
        );
    }
}

#[test]
fn initialize_tick_array_asks_nothing_of_the_pool() {
    let mut ctx = valid_tick_array();
    ctx.whirlpool.info.is_writable = true;
    ctx.whirlpool.data.token_mint_a = key(99);
    assert!(initialize_tick_array(ctx, 0).is_ok());
}

#[test]
fn initialize_tick_array_checks_each_constraint_in_order() {
    let mut ctx = valid_tick_array();
    ctx.tick_array.is_writable = false;
    assert_eq!(
        initialize_tick_array(ctx.clone(), 0),
        refused(AccountName::TickArray, Rule::Writable)
    );
    ctx.funder.is_writable = false;
    assert_eq!(
        initialize_tick_array(ctx.clone(), 0),
        refused(AccountName::Funder, Rule::Writable)
    );
    ctx.system_program.key = Pubkey::new(TOKEN_PROGRAM_ID);
    assert_eq!(
        initialize_tick_array(ctx.clone(), 0),
        refused(AccountName::SystemProgram, Rule::Program)
    );
    ctx.funder.is_signer = false;
    assert_eq!(
        initialize_tick_array(ctx.clone(), 0),
        refused(AccountName::Funder, Rule::Signer)
    );
    ctx.whirlpool_program.key = key(0);
    assert_eq!(
        initialize_tick_array(ctx.clone(), 0),
        refused(AccountName::WhirlpoolProgram, Rule::Program)
    );
    assert_eq!(
        ctx.validate(),
        Err(Violation { account: AccountName::WhirlpoolProgram, rule: Rule::Program })
    );
}

#[test]
fn initialize_tick_array_tells_the_system_program_by_every_byte() {
    let mut bytes = SYSTEM_PROGRAM_ID;
    bytes[31] = 1;
    let mut ctx = valid_tick_array();
    ctx.system_program.key = Pubkey::new(bytes);
    assert_eq!(
        initialize_tick_array(ctx, 0),
        refused(AccountName::SystemProgram, Rule::Program)
    );
}
