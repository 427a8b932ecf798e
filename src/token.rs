use vstd::prelude::*;
use crate::address::Address;

verus! {

/// A holding of one token type: which mint it counts, who may move it, how much it holds.
#[derive(Clone, Copy, Debug)]
pub struct TokenAccount {
    pub mint: Address,
    pub owner: Address,
    pub amount: u64,
}

/// Why a token transfer was refused.
#[derive(Clone, Copy, Debug, PartialEq, Eq, Structural)]
pub enum TokenError {
    /// The source holds less than the amount asked for.
    InsufficientFunds,
    /// Source and destination count different mints.
    MintMismatch,
    /// The authority presented is not the source's owner.
    OwnerMismatch,
    /// The destination's balance would exceed `u64::MAX`.
    Overflow,
}

/// What a transfer of `amount` from `from` to `to`, signed by `authority`, leaves behind:
/// the two accounts afterwards, or the reason nothing moved.
pub open spec fn transfer_result(
    from: TokenAccount,
    to: TokenAccount,
    authority: Seq<u8>,
    amount: u64,
) -> Result<(TokenAccount, TokenAccount), TokenError> {
    if from.amount < amount {
        Err(TokenError::InsufficientFunds)
    } else if from.mint@ != to.mint@ {
        Err(TokenError::MintMismatch)
    } else if authority != from.owner@ {
        Err(TokenError::OwnerMismatch)
    } else if to.amount + amount > u64::MAX {
        Err(TokenError::Overflow)
    } else {
        Ok((
            TokenAccount { amount: (from.amount - amount) as u64, ..from },
            TokenAccount { amount: (to.amount + amount) as u64, ..to },
        ))
    }
}

/// Moves `amount` from `from` to `to` under `authority`, or moves nothing.
pub fn transfer(
    from: &mut TokenAccount,
    to: &mut TokenAccount,
    authority: &Address,
    amount: u64,
) -> (r: Result<(), TokenError>)
    ensures
        match transfer_result(*old(from), *old(to), authority@, amount) {
            Ok((f, t)) => r is Ok && *final(from) == f && *final(to) == t,
            Err(e) => r == Err::<(), TokenError>(e) && *final(from) == *old(from) && *final(to)
                == *old(to),
        },
{
    if from.amount < amount {
        return Err(TokenError::InsufficientFunds);
    }
    if !from.mint.same_as(&to.mint) {
        return Err(TokenError::MintMismatch);
    }
    if !authority.same_as(&from.owner) {
        return Err(TokenError::OwnerMismatch);
    }
    if to.amount > u64::MAX - amount {
        return Err(TokenError::Overflow);
    }
    from.amount = from.amount - amount;
    to.amount = to.amount + amount;
    Ok(())
}

} // verus!
