use orcatest::{AccountName, ForwardError, Instruction, Invocation, Pubkey, Rule, Violation};

fn some_call() -> Invocation {
    Invocation {
        program: Pubkey::new([1; 32]),
        instruction: Instruction::CollectFees,
        accounts: vec![Pubkey::new([2; 32]), Pubkey::new([3; 32])],
    }
}

#[test]
fn conclude_passes_success_on() {
    let outcome: Result<(), ForwardError<u32>> = some_call().conclude(Ok(()));
    assert_eq!(outcome, Ok(()));
}

#[test]
fn conclude_carries_the_exchange_error_unchanged() {
    for code in [0u32, 1, 6000, 0x1771, u32::MAX] {
        assert_eq!(some_call().conclude(Err(code)), Err(ForwardError::Delegated(code)));
    }
}

#[test]
fn conclude_carries_any_kind_of_error() {
    let error = String::from("TokenMaxExceeded");
    assert_eq!(
        some_call().conclude(Err(error.clone())),
        Err(ForwardError::Delegated(error))
    );
    let pair = (6017u32, vec![1u8, 2, 3]);
    assert_eq!(
        some_call().conclude(Err(pair.clone())),
        Err(ForwardError::Delegated(pair))
    );
}

#[test]
fn conclude_never_reports_an_invalid_account() {
    let outcome = some_call().conclude(Err(2003u32));
    assert!(!matches!(outcome, Err(ForwardError::InvalidAccount(_))));
}

#[test]
fn violation_turns_into_invalid_account() {
    let violation = Violation { account: AccountName::TokenVaultA, rule: Rule::Address };
    let error: ForwardError<u32> = ForwardError::from(violation);
    assert_eq!(error, ForwardError::InvalidAccount(violation));
    let error: ForwardError<String> = violation.into();
    assert_eq!(error, ForwardError::InvalidAccount(violation));
}

#[test]
fn the_two_kinds_of_failure_are_told_apart() {
    let violation = Violation { account: AccountName::Position, rule: Rule::Pool };
    let local: ForwardError<u32> = ForwardError::InvalidAccount(violation);
    let remote: ForwardError<u32> = ForwardError::Delegated(0);
    assert_ne!(local, remote);
}
