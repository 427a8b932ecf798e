use vstd::prelude::*;
use crate::address::Address;
use crate::outcome::{coin_outcome, outcome_of};
use crate::pda::{
    create_program_address, find_program_address, opt_view, program_address_of, state_seed,
    state_seed_bytes, vault_seed, vault_seed_bytes,
};
use crate::token::{transfer, transfer_result, TokenAccount, TokenError};

verus! {

/// The global state record: who owns the vault, and the bumps of the two derived addresses.
#[derive(Clone, Copy, Debug)]
pub struct State {
    pub owner: Address,
    pub state_bump: u8,
    pub vault_bump: u8,
}

/// The errors that the program itself raises.
#[derive(Clone, Copy, Debug, PartialEq, Eq, Structural)]
pub enum CustomError {
    /// The side of a flip is neither 0 (heads) nor 1 (tails).
    InvalidSide,
    /// The payout of a won flip does not fit in a `u64`.
    Overflow,
    /// The caller is not the recorded owner.
    Unauthorized,
}

/// Why an instruction was refused. A refused instruction changes nothing.
#[derive(Clone, Copy, Debug, PartialEq, Eq, Structural)]
pub enum InstructionError {
    Custom(CustomError),
    Token(TokenError),
    /// The state record or the vault already exists.
    AccountAlreadyInitialized,
    /// No bump from 255 down to 1 yields a derived address for a seed.
    NoViableBump,
    /// The recorded bump does not derive the vault authority.
    InvalidSeeds,
}

/// The accounts of `initialize`: the record and vault are `None` until created.
#[derive(Clone, Copy, Debug)]
pub struct Initialize {
    pub program_id: Address,
    pub state: Option<State>,
    pub vault: Option<TokenAccount>,
    pub owner: Address,
    pub mint: Address,
}

/// The accounts of `deposit`.
#[derive(Clone, Copy, Debug)]
pub struct Deposit {
    pub state: State,
    pub owner: Address,
    pub owner_token_account: TokenAccount,
    pub vault: TokenAccount,
}

/// The accounts of `flip`, with the ledger time at which it lands.
#[derive(Clone, Copy, Debug)]
pub struct Flip {
    pub program_id: Address,
    pub state: State,
    pub user: Address,
    pub user_token_account: TokenAccount,
    pub vault: TokenAccount,
    pub unix_timestamp: i64,
}

/// The accounts of `withdraw`.
#[derive(Clone, Copy, Debug)]
pub struct Withdraw {
    pub program_id: Address,
    pub state: State,
    pub owner: Address,
    pub owner_token_account: TokenAccount,
    pub vault: TokenAccount,
}

/// Whether `r` reports `expected`: on success the accounts became the expected ones,
/// on failure the same error came back and the accounts are as they were.
pub open spec fn settles<C>(
    r: Result<(), InstructionError>,
    before: C,
    after: C,
    expected: Result<C, InstructionError>,
) -> bool {
    match expected {
        Ok(c) => r is Ok && after == c,
        Err(e) => r == Err::<(), InstructionError>(e) && after == before,
    }
}

/// `b` is the bump that the derivation search settles on: the highest one
/// from 255 down to 1 that yields an address.
pub open spec fn is_canonical_bump(seed: Seq<u8>, program_id: Seq<u8>, b: u8) -> bool {
    &&& 1 <= b
    &&& program_address_of(seed, b, program_id) is Some
    &&& forall|c: u8| b < c ==> (#[trigger] program_address_of(seed, c, program_id)) is None
}

/// No bump from 255 down to 1 yields an address for `seed`.
pub open spec fn no_viable_bump(seed: Seq<u8>, program_id: Seq<u8>) -> bool {
    forall|c: u8| 1 <= c ==> (#[trigger] program_address_of(seed, c, program_id)) is None
}

/// What `initialize` does to its accounts: refused if either account exists or
/// a derivation fails; otherwise both are created, the vault empty and controlled
/// by the vault authority.
pub open spec fn initialize_ok(c: Initialize, after: Initialize) -> bool {
    &&& after.program_id == c.program_id
    &&& after.owner == c.owner
    &&& after.mint == c.mint
    &&& after.state matches Some(s) && {
        &&& s.owner == c.owner
        &&& is_canonical_bump(state_seed(), c.program_id@, s.state_bump)
        &&& is_canonical_bump(vault_seed(), c.program_id@, s.vault_bump)
        &&& after.vault matches Some(v) && {
            &&& v.mint == c.mint
            &&& v.amount == 0
            &&& program_address_of(vault_seed(), s.vault_bump, c.program_id@) == Some(v.owner@)
        }
    }
}

/// The error `initialize` reports on `c`, if any.
pub open spec fn initialize_error(c: Initialize) -> Option<InstructionError> {
    if c.state is Some || c.vault is Some {
        Some(InstructionError::AccountAlreadyInitialized)
    } else if no_viable_bump(state_seed(), c.program_id@) || no_viable_bump(
        vault_seed(),
        c.program_id@,
    ) {
        Some(InstructionError::NoViableBump)
    } else {
        None
    }
}

/// The authorization guard: `caller` must be the recorded owner.
pub open spec fn is_owner(caller: Seq<u8>, state: State) -> bool {
    caller == state.owner@
}

/// What `deposit` of `amount` does: owner only, then a transfer from the
/// owner's holding into the vault, signed by the owner.
pub open spec fn deposit_result(c: Deposit, amount: u64) -> Result<Deposit, InstructionError> {
    if !is_owner(c.owner@, c.state) {
        Err(InstructionError::Custom(CustomError::Unauthorized))
    } else {
        match transfer_result(c.owner_token_account, c.vault, c.owner@, amount) {
            Err(e) => Err(InstructionError::Token(e)),
            Ok((o, v)) => Ok(Deposit { owner_token_account: o, vault: v, ..c }),
        }
    }
}

/// What `withdraw` of `amount` does: owner only, then a transfer from the vault
/// to the owner's holding, signed by the derived vault authority.
pub open spec fn withdraw_result(c: Withdraw, amount: u64) -> Result<Withdraw, InstructionError> {
    if !is_owner(c.owner@, c.state) {
        Err(InstructionError::Custom(CustomError::Unauthorized))
    } else {
        match program_address_of(vault_seed(), c.state.vault_bump, c.program_id@) {
            None => Err(InstructionError::InvalidSeeds),
            Some(signer) => match transfer_result(c.vault, c.owner_token_account, signer, amount) {
                Err(e) => Err(InstructionError::Token(e)),
                Ok((v, o)) => Ok(Withdraw { owner_token_account: o, vault: v, ..c }),
            },
        }
    }
}

/// What `flip` of `amount` on `side` does when the coin shows `outcome`: the side is
/// checked, the stake moves into the vault, and on a match the vault pays out twice
/// the stake, signed by the derived vault authority.
pub open spec fn flip_result(c: Flip, amount: u64, side: u8, outcome: u8) -> Result<
    Flip,
    InstructionError,
> {
    if side >= 2 {
        Err(InstructionError::Custom(CustomError::InvalidSide))
    } else {
        match transfer_result(c.user_token_account, c.vault, c.user@, amount) {
            Err(e) => Err(InstructionError::Token(e)),
            Ok((u, v)) => if outcome != side {
                Ok(Flip { user_token_account: u, vault: v, ..c })
            } else if 2 * amount > u64::MAX {
                Err(InstructionError::Custom(CustomError::Overflow))
            } else {
                match program_address_of(vault_seed(), c.state.vault_bump, c.program_id@) {
                    None => Err(InstructionError::InvalidSeeds),
                    Some(signer) => match transfer_result(v, u, signer, (2 * amount) as u64) {
                        Err(e) => Err(InstructionError::Token(e)),
                        Ok((v2, u2)) => Ok(Flip { user_token_account: u2, vault: v2, ..c }),
                    },
                }
            },
        }
    }
}

/// Succeeds iff `caller` is the recorded owner.
pub fn require_owner(caller: &Address, state: &State) -> (r: Result<(), CustomError>)
    ensures
        r is Ok <==> is_owner(caller@, *state),
        r is Err ==> r == Err::<(), CustomError>(CustomError::Unauthorized),
{
    if caller.same_as(&state.owner) {
        Ok(())
    } else {
        Err(CustomError::Unauthorized)
    }
}

/// Creates the state record, owned by the caller, and the empty vault for `mint`.
pub fn initialize(ctx: &mut Initialize) -> (r: Result<(), InstructionError>)
    ensures
        match initialize_error(*old(ctx)) {
            Some(e) => r == Err::<(), InstructionError>(e) && *final(ctx) == *old(ctx),
            None => r is Ok && initialize_ok(*old(ctx), *final(ctx)),
        },
{
    if ctx.state.is_some() || ctx.vault.is_some() {
        return Err(InstructionError::AccountAlreadyInitialized);
    }
    let state_label = state_seed_bytes();
    let vault_label = vault_seed_bytes();
    let found_state = find_program_address(state_label.as_slice(), &ctx.program_id);
    let found_vault = find_program_address(vault_label.as_slice(), &ctx.program_id);
    match (found_state, found_vault) {
        (Some((_, state_bump)), Some((vault_authority, vault_bump))) => {
            ctx.state = Some(State { owner: ctx.owner, state_bump, vault_bump });
            ctx.vault = Some(TokenAccount { mint: ctx.mint, owner: vault_authority, amount: 0 });
            Ok(())
        },
        _ => Err(InstructionError::NoViableBump),
    }
}

/// Moves `amount` from the owner's holding into the vault.
pub fn deposit(ctx: &mut Deposit, amount: u64) -> (r: Result<(), InstructionError>)
    ensures
        settles(r, *old(ctx), *final(ctx), deposit_result(*old(ctx), amount)),
{
    match require_owner(&ctx.owner, &ctx.state) {
        Err(e) => return Err(InstructionError::Custom(e)),
        Ok(()) => {},
    }
    let owner = ctx.owner;
    match transfer(&mut ctx.owner_token_account, &mut ctx.vault, &owner, amount) {
        Err(e) => Err(InstructionError::Token(e)),
        Ok(()) => Ok(()),
    }
}

/// Moves `amount` from the vault to the owner's holding, signed by the vault authority.
pub fn withdraw(ctx: &mut Withdraw, amount: u64) -> (r: Result<(), InstructionError>)
    ensures
        settles(r, *old(ctx), *final(ctx), withdraw_result(*old(ctx), amount)),
{
    match require_owner(&ctx.owner, &ctx.state) {
        Err(e) => return Err(InstructionError::Custom(e)),
        Ok(()) => {},
    }
    let label = vault_seed_bytes();
    let signer = match create_program_address(label.as_slice(), ctx.state.vault_bump, &ctx.program_id) {
        None => return Err(InstructionError::InvalidSeeds),
        Some(a) => a,
    };
    match transfer(&mut ctx.vault, &mut ctx.owner_token_account, &signer, amount) {
        Err(e) => Err(InstructionError::Token(e)),
        Ok(()) => Ok(()),
    }
}

/// Settles a flip of `amount` on `side` against a coin that showed `outcome`.
/// Either every transfer commits or no account changes.
pub fn flip_with_outcome(ctx: &mut Flip, amount: u64, side: u8, outcome: u8) -> (r: Result<
    (),
    InstructionError,
>)
    ensures
        settles(r, *old(ctx), *final(ctx), flip_result(*old(ctx), amount, side, outcome)),
{
    if side >= 2 {
        return Err(InstructionError::Custom(CustomError::InvalidSide));
    }
    let mut user_account = ctx.user_token_account;
    let mut vault = ctx.vault;
    let user = ctx.user;
    match transfer(&mut user_account, &mut vault, &user, amount) {
        Err(e) => return Err(InstructionError::Token(e)),
        Ok(()) => {},
    }
    if outcome == side {
        let payout = match amount.checked_mul(2) {
            None => return Err(InstructionError::Custom(CustomError::Overflow)),
            Some(p) => p,
        };
        let label = vault_seed_bytes();
        let signer = match create_program_address(
            label.as_slice(),
            ctx.state.vault_bump,
            &ctx.program_id,
        ) {
            None => return Err(InstructionError::InvalidSeeds),
            Some(a) => a,
        };
        match transfer(&mut vault, &mut user_account, &signer, payout) {
            Err(e) => return Err(InstructionError::Token(e)),
            Ok(()) => {},
        }
    }
    ctx.user_token_account = user_account;
    ctx.vault = vault;
    Ok(())
}

/// Stakes `amount` on `side` (0 heads, 1 tails); the coin is the outcome bit of the
/// caller's identity at the flip's timestamp.
pub fn flip(ctx: &mut Flip, amount: u64, side: u8) -> (r: Result<(), InstructionError>)
    ensures
        settles(
            r,
            *old(ctx),
            *final(ctx),
            flip_result(*old(ctx), amount, side, outcome_of(old(ctx).unix_timestamp, old(ctx).user@)),
        ),
{
    if side >= 2 {
        return Err(InstructionError::Custom(CustomError::InvalidSide));
    }
    let outcome = coin_outcome(ctx.unix_timestamp, &ctx.user);
    flip_with_outcome(ctx, amount, side, outcome)
}

} // verus!
