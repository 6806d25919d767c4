//! The constraints that an account set must meet, and how they are judged.
//!
//! An operation lays its constraints out as a list of checks, in the order in
//! which they are judged. The account set is valid when every check holds;
//! otherwise the first one that fails is reported.

use vstd::prelude::*;

verus! {

/// The accounts that the operations name.
#[derive(Clone, Copy, Debug, PartialEq, Eq)]
pub enum AccountName {
    Funder,
    Owner,
    Position,
    PositionMint,
    PositionTokenAccount,
    Whirlpool,
    WhirlpoolProgram,
    TokenProgram,
    SystemProgram,
    Rent,
    AssociatedTokenProgram,
    TickArray,
    PositionAuthority,
    TokenOwnerAccountA,
    TokenOwnerAccountB,
    TokenVaultA,
    TokenVaultB,
    TickArrayLower,
    TickArrayUpper,
    Receiver,
    RewardOwnerAccount,
    RewardVault,
}

/// What a constraint asks of an account.
#[derive(Clone, Copy, Debug, PartialEq, Eq)]
pub enum Rule {
    /// The account has signed the transaction.
    Signer,
    /// The account is the program that the operation names.
    Program,
    /// The account is the rent sysvar.
    Sysvar,
    /// The transaction may write to the account.
    Writable,
    /// The record belongs to the pool that was supplied.
    Pool,
    /// The token account is of the mint recorded for it.
    Mint,
    /// The position token account holds exactly one unit.
    Amount,
    /// The account sits at the address recorded for it.
    Address,
    /// The account to be closed is not the one that receives its rent.
    Receiver,
}

/// A constraint that an account set does not meet.
#[derive(Clone, Copy, Debug, PartialEq, Eq)]
pub struct Violation {
    pub account: AccountName,
    pub rule: Rule,
}

/// A constraint, judged on one account set.
#[derive(Clone, Copy, Debug, PartialEq, Eq)]
pub struct Check {
    pub account: AccountName,
    pub rule: Rule,
    pub holds: bool,
}

impl Check {
    /// What is reported when the check fails.
    pub open spec fn violation(self) -> Violation {
        Violation { account: self.account, rule: self.rule }
    }
}

/// Every check of the list holds.
pub open spec fn all_hold(checks: Seq<Check>) -> bool {
    forall|i: int| 0 <= i < checks.len() ==> (#[trigger] checks[i]).holds
}

/// The check at `index` fails and every one before it holds.
pub open spec fn fails_first_at(checks: Seq<Check>, index: int) -> bool {
    &&& 0 <= index < checks.len()
    &&& !checks[index].holds
    &&& forall|j: int| 0 <= j < index ==> (#[trigger] checks[j]).holds
}

/// The first failure among the checks from `start` on.
pub open spec fn first_failure_from(checks: Seq<Check>, start: int) -> Option<Violation>
    decreases checks.len() - start,
{
    if start < 0 || start >= checks.len() {
        None
    } else if !checks[start].holds {
        Some(checks[start].violation())
    } else {
        first_failure_from(checks, start + 1)
    }
}

/// The violation that a list of checks reports: that of the first check
/// which fails, none when all hold.
pub open spec fn first_failure(checks: Seq<Check>) -> Option<Violation> {
    first_failure_from(checks, 0)
}

proof fn lemma_first_failure_from(checks: Seq<Check>, start: int)
    requires
        0 <= start <= checks.len(),
    ensures
        match first_failure_from(checks, start) {
            None => forall|i: int| start <= i < checks.len() ==> (#[trigger] checks[i]).holds,
            Some(v) => exists|i: int|
                {
                    &&& start <= i < checks.len()
                    &&& !(#[trigger] checks[i]).holds
                    &&& checks[i].violation() == v
                    &&& forall|j: int| start <= j < i ==> (#[trigger] checks[j]).holds
                },
        },
    decreases checks.len() - start,
{
    if start < checks.len() {
        if !checks[start].holds {
            assert(checks[start].violation() == first_failure_from(checks, start)->0);
        } else {
            lemma_first_failure_from(checks, start + 1);
            match first_failure_from(checks, start + 1) {
                None => {},
                Some(v) => {
                    let i = choose|i: int|
                        {
                            &&& start + 1 <= i < checks.len()
                            &&& !(#[trigger] checks[i]).holds
                            &&& checks[i].violation() == v
                            &&& forall|j: int| start + 1 <= j < i ==> (#[trigger] checks[j]).holds
                        };
                    assert(!checks[i].holds && checks[i].violation() == v);
                },
            }
        }
    }
}

/// No violation is reported exactly when every check holds; one that is
/// reported is that of a check which fails while all before it hold.
pub proof fn lemma_first_failure(checks: Seq<Check>)
    ensures
        first_failure(checks) is None <==> all_hold(checks),
        first_failure(checks) matches Some(v) ==> exists|i: int|
            #![trigger checks[i]]
            fails_first_at(checks, i) && checks[i].violation() == v,
{
    lemma_first_failure_from(checks, 0);
    match first_failure(checks) {
        None => {},
        Some(v) => {
            let i = choose|i: int|
                {
                    &&& 0 <= i < checks.len()
                    &&& !(#[trigger] checks[i]).holds
                    &&& checks[i].violation() == v
                    &&& forall|j: int| 0 <= j < i ==> (#[trigger] checks[j]).holds
                };
            assert(fails_first_at(checks, i) && checks[i].violation() == v);
        },
    }
}

/// A list in which some check fails reports a violation, whichever check it is
/// and whatever the others say.
pub proof fn lemma_failing_check_reported(checks: Seq<Check>, index: int)
    requires
        0 <= index < checks.len(),
        !checks[index].holds,
    ensures
        !all_hold(checks),
        first_failure(checks) is Some,
{
    lemma_first_failure(checks);
}

/// The check that fails first decides what is reported.
pub proof fn lemma_first_failure_at(checks: Seq<Check>, index: int)
    requires
        fails_first_at(checks, index),
    ensures
        first_failure(checks) == Some(checks[index].violation()),
{
    lemma_skip_holding(checks, 0, index);
}

proof fn lemma_skip_holding(checks: Seq<Check>, start: int, index: int)
    requires
        0 <= start <= index < checks.len(),
        forall|j: int| start <= j < index ==> (#[trigger] checks[j]).holds,
    ensures
        first_failure_from(checks, start) == first_failure_from(checks, index),
    decreases index - start,
{
    if start < index {
        assert(checks[start].holds);
        lemma_skip_holding(checks, start + 1, index);
    }
}

} // verus!
