use vstd::prelude::*;
use crate::outcome::outcome_of;
use crate::program::{
    deposit_result, flip_result, initialize_error, initialize_ok, withdraw_result, CustomError,
    Deposit, Flip, Initialize, InstructionError, Withdraw,
};
use crate::token::transfer_result;

verus! {

/// What a committed operation did to the vault.
#[derive(Clone, Copy, Debug, PartialEq, Eq, Structural)]
pub enum Movement {
    /// The owner deposited this amount.
    Deposited(u64),
    /// The owner withdrew this amount.
    Withdrawn(u64),
    /// A flip on this stake was lost: the stake stays in the vault.
    StakeLost(u64),
    /// A flip on this stake was won: the stake came in and twice the stake went out.
    StakeWon(u64),
}

/// The change of the vault's balance that a movement brings.
pub open spec fn vault_change(m: Movement) -> int {
    match m {
        Movement::Deposited(a) => a as int,
        Movement::Withdrawn(a) => -a,
        Movement::StakeLost(a) => a as int,
        Movement::StakeWon(a) => a - 2 * a,
    }
}

/// Deposits plus losing stakes plus winning stakes, less withdrawals and payouts.
pub open spec fn total_change(ms: Seq<Movement>) -> int
    decreases ms.len(),
{
    if ms.len() == 0 {
        0
    } else {
        total_change(ms.drop_last()) + vault_change(ms.last())
    }
}

/// Over any run of committed operations, where `balances[i]` is the vault's balance
/// before the `i`-th movement, the final balance is the first plus the sum of the
/// movements. Refused operations leave the vault as it was, so they add nothing.
pub proof fn vault_conservation(balances: Seq<u64>, moves: Seq<Movement>)
    requires
        balances.len() == moves.len() + 1,
        forall|i: int|
            0 <= i < moves.len() ==> balances[i + 1] == balances[i] + vault_change(
                #[trigger] moves[i],
            ),
    ensures
        balances.last() == balances[0] + total_change(moves),
    decreases moves.len(),
{
    if moves.len() > 0 {
        let n = moves.len() - 1;
        vault_conservation(balances.drop_last(), moves.drop_last());
        assert(balances.drop_last().last() == balances[n]);
        assert(balances[n + 1] == balances[n] + vault_change(moves[n]));
    }
}

/// A transfer that commits neither creates nor destroys tokens: the source loses
/// exactly what the destination gains.
pub proof fn transfer_conserves(
    from: crate::token::TokenAccount,
    to: crate::token::TokenAccount,
    authority: Seq<u8>,
    amount: u64,
)
    requires
        transfer_result(from, to, authority, amount) is Ok,
    ensures
        ({
            let (f, t) = transfer_result(from, to, authority, amount)->Ok_0;
            &&& f.amount == from.amount - amount
            &&& t.amount == to.amount + amount
            &&& f.mint == from.mint && f.owner == from.owner
            &&& t.mint == to.mint && t.owner == to.owner
        }),
{
}

/// A deposit that succeeds adds exactly its amount to the vault and takes it from the owner.
pub proof fn deposit_conserves(c: Deposit, amount: u64)
    requires
        deposit_result(c, amount) is Ok,
    ensures
        ({
            let d = deposit_result(c, amount)->Ok_0;
            &&& d.vault.amount == c.vault.amount + vault_change(Movement::Deposited(amount))
            &&& d.owner_token_account.amount == c.owner_token_account.amount - amount
            &&& d.state == c.state
        }),
{
}

/// A withdrawal that succeeds takes exactly its amount from the vault and gives it to the owner.
pub proof fn withdraw_conserves(c: Withdraw, amount: u64)
    requires
        withdraw_result(c, amount) is Ok,
    ensures
        ({
            let w = withdraw_result(c, amount)->Ok_0;
            &&& w.vault.amount == c.vault.amount + vault_change(Movement::Withdrawn(amount))
            &&& w.owner_token_account.amount == c.owner_token_account.amount + amount
            &&& w.state == c.state
        }),
{
}

/// A flip that succeeds moves the stake into the vault and, when won, pays twice the stake
/// back: the vault gains the stake on a loss and loses it on a win, and the caller
/// mirrors it.
pub proof fn flip_conserves(c: Flip, amount: u64, side: u8, outcome: u8)
    requires
        flip_result(c, amount, side, outcome) is Ok,
    ensures
        ({
            let f = flip_result(c, amount, side, outcome)->Ok_0;
            &&& outcome != side ==> f.vault.amount == c.vault.amount + vault_change(
                Movement::StakeLost(amount),
            )
                && f.user_token_account.amount == c.user_token_account.amount - amount
            &&& outcome == side ==> f.vault.amount == c.vault.amount + vault_change(
                Movement::StakeWon(amount),
            )
                && f.user_token_account.amount == c.user_token_account.amount - amount + 2
                * amount
            &&& f.vault.amount + f.user_token_account.amount == c.vault.amount
                + c.user_token_account.amount
            &&& f.state == c.state
        }),
{
}

/// A deposit by anyone but the recorded owner is refused as unauthorized.
pub proof fn deposit_requires_owner(c: Deposit, amount: u64)
    requires
        c.owner@ != c.state.owner@,
    ensures
        deposit_result(c, amount) == Err::<Deposit, InstructionError>(
            InstructionError::Custom(CustomError::Unauthorized),
        ),
{
}

/// A withdrawal by anyone but the recorded owner is refused as unauthorized.
pub proof fn withdraw_requires_owner(c: Withdraw, amount: u64)
    requires
        c.owner@ != c.state.owner@,
    ensures
        withdraw_result(c, amount) == Err::<Withdraw, InstructionError>(
            InstructionError::Custom(CustomError::Unauthorized),
        ),
{
}

/// A flip on a side other than 0 or 1 is refused before any transfer, whatever the coin shows.
pub proof fn flip_rejects_invalid_side(c: Flip, amount: u64, side: u8, outcome: u8)
    requires
        side >= 2,
    ensures
        flip_result(c, amount, side, outcome) == Err::<Flip, InstructionError>(
            InstructionError::Custom(CustomError::InvalidSide),
        ),
{
}

/// A won flip whose payout would overflow is refused as an overflow once the stake
/// could be collected, and is refused in any case: no account changes.
pub proof fn flip_overflow_is_refused(c: Flip, amount: u64, side: u8)
    requires
        side < 2,
        2 * amount > u64::MAX,
    ensures
        flip_result(c, amount, side, side) is Err,
        transfer_result(c.user_token_account, c.vault, c.user@, amount) is Ok ==> flip_result(
            c,
            amount,
            side,
            side,
        ) == Err::<Flip, InstructionError>(InstructionError::Custom(CustomError::Overflow)),
{
}

/// The outcome bit depends on the timestamp and the caller's identity bytes alone.
pub proof fn outcome_is_deterministic(t1: i64, u1: Seq<u8>, t2: i64, u2: Seq<u8>)
    requires
        t1 == t2,
        u1 == u2,
    ensures
        outcome_of(t1, u1) == outcome_of(t2, u2),
        outcome_of(t1, u1) < 2,
{
}

/// Once `initialize` has succeeded, running it again on the accounts it left is refused,
/// and (by the contract of `initialize`) leaves them as they are.
pub proof fn initialize_only_once(c: Initialize, after: Initialize)
    requires
        initialize_error(c) is None,
        initialize_ok(c, after),
    ensures
        initialize_error(after) == Some(InstructionError::AccountAlreadyInitialized),
{
}

} // verus!
