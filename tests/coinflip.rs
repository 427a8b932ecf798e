use anchor_lang::solana_program::pubkey::Pubkey;
use coinflip::{
    coin_outcome, deposit, flip, flip_with_outcome, initialize, require_owner, state_seed_bytes,
    transfer, vault_seed_bytes, withdraw, Address, CustomError, Deposit, Flip, Initialize,
    InstructionError, State, TokenAccount, TokenError, Withdraw,
};

const MINT: [u8; 32] = [1u8; 32];
const PLAYER: [u8; 32] = [2u8; 32];
const OWNER: [u8; 32] = [4u8; 32];
const PROGRAM: [u8; 32] = [7u8; 32];

fn addr(b: [u8; 32]) -> Address {
    Address::new(b)
}

fn account(owner: [u8; 32], amount: u64) -> TokenAccount {
    TokenAccount { mint: addr(MINT), owner: addr(owner), amount }
}

/// Initializes the program for OWNER and returns the record and the empty vault.
fn initialized() -> (State, TokenAccount) {
    let mut ctx = Initialize {
        program_id: addr(PROGRAM),
        state: None,
        vault: None,
        owner: addr(OWNER),
        mint: addr(MINT),
    };
    assert_eq!(initialize(&mut ctx), Ok(()));
    (ctx.state.unwrap(), ctx.vault.unwrap())
}

/// Owner initializes, deposits 1000, and returns a flip context for PLAYER holding 100.
fn funded_flip(unix_timestamp: i64) -> Flip {
    let (state, vault) = initialized();
    let mut d = Deposit {
        state,
        owner: addr(OWNER),
        owner_token_account: account(OWNER, 5000),
        vault,
    };
    assert_eq!(deposit(&mut d, 1000), Ok(()));
    assert_eq!(d.vault.amount, 1000);
    Flip {
        program_id: addr(PROGRAM),
        state,
        user: addr(PLAYER),
        user_token_account: account(PLAYER, 100),
        vault: d.vault,
        unix_timestamp,
    }
}

#[test]
fn scenario_heads_wins() {
    let mut f = funded_flip(0);
    assert_eq!(coin_outcome(0, &addr(PLAYER)), 0);
    assert_eq!(flip(&mut f, 50, 0), Ok(()));
    assert_eq!(f.vault.amount, 950);
    assert_eq!(f.user_token_account.amount, 150);
}

#[test]
fn scenario_tails_loses() {
    let mut f = funded_flip(2);
    assert_eq!(coin_outcome(2, &addr(PLAYER)), 1);
    assert_eq!(flip(&mut f, 50, 0), Ok(()));
    assert_eq!(f.vault.amount, 1050);
    assert_eq!(f.user_token_account.amount, 50);
}

#[test]
fn settle_with_given_outcome() {
    let mut win = funded_flip(0);
    assert_eq!(flip_with_outcome(&mut win, 50, 1, 1), Ok(()));
    assert_eq!(win.vault.amount, 950);
    assert_eq!(win.user_token_account.amount, 150);
    let mut lose = funded_flip(0);
    assert_eq!(flip_with_outcome(&mut lose, 50, 1, 0), Ok(()));
    assert_eq!(lose.vault.amount, 1050);
    assert_eq!(lose.user_token_account.amount, 50);
}

#[test]
fn outcome_bits_of_known_inputs() {
    assert_eq!(coin_outcome(0, &addr(PLAYER)), 0);
    assert_eq!(coin_outcome(2, &addr(PLAYER)), 1);
    assert_eq!(coin_outcome(-1, &addr(PLAYER)), 1);
    assert_eq!(coin_outcome(0, &addr([9u8; 32])), 1);
    assert_eq!(coin_outcome(1, &addr([9u8; 32])), 0);
}

#[test]
fn outcome_is_repeatable() {
    for t in [0i64, 1, 2, 1_700_000_000, -5] {
        let a = coin_outcome(t, &addr(PLAYER));
        let b = coin_outcome(t, &addr(PLAYER));
        assert_eq!(a, b);
        assert!(a < 2);
    }
}

#[test]
fn flip_rejects_side_two() {
    let mut f = funded_flip(0);
    let before = (f.vault.amount, f.user_token_account.amount);
    assert_eq!(flip(&mut f, 50, 2), Err(InstructionError::Custom(CustomError::InvalidSide)));
    assert_eq!((f.vault.amount, f.user_token_account.amount), before);
    assert_eq!(
        flip_with_outcome(&mut f, 50, 255, 1),
        Err(InstructionError::Custom(CustomError::InvalidSide))
    );
    assert_eq!((f.vault.amount, f.user_token_account.amount), before);
}

#[test]
fn won_flip_with_overflowing_payout_rolls_back() {
    let (state, _) = initialized();
    let big = u64::MAX / 2 + 1;
    let mut f = Flip {
        program_id: addr(PROGRAM),
        state,
        user: addr(PLAYER),
        user_token_account: account(PLAYER, big),
        vault: TokenAccount { mint: addr(MINT), owner: addr(OWNER), amount: 0 },
        unix_timestamp: 0,
    };
    assert_eq!(
        flip_with_outcome(&mut f, big, 0, 0),
        Err(InstructionError::Custom(CustomError::Overflow))
    );
    assert_eq!(f.user_token_account.amount, big);
    assert_eq!(f.vault.amount, 0);
}

#[test]
fn lost_flip_with_large_stake_needs_no_payout() {
    let (state, _) = initialized();
    let big = u64::MAX / 2 + 1;
    let mut f = Flip {
        program_id: addr(PROGRAM),
        state,
        user: addr(PLAYER),
        user_token_account: account(PLAYER, big),
        vault: TokenAccount { mint: addr(MINT), owner: addr(OWNER), amount: 0 },
        unix_timestamp: 0,
    };
    assert_eq!(flip_with_outcome(&mut f, big, 0, 1), Ok(()));
    assert_eq!(f.user_token_account.amount, 0);
    assert_eq!(f.vault.amount, big);
}

#[test]
fn flip_without_stake_balance_fails() {
    let mut f = funded_flip(0);
    assert_eq!(flip(&mut f, 101, 0), Err(InstructionError::Token(TokenError::InsufficientFunds)));
    assert_eq!(f.vault.amount, 1000);
    assert_eq!(f.user_token_account.amount, 100);
}

#[test]
fn won_flip_against_thin_vault_rolls_back() {
    let (state, vault) = initialized();
    let mut f = Flip {
        program_id: addr(PROGRAM),
        state,
        user: addr(PLAYER),
        user_token_account: account(PLAYER, 100),
        vault: TokenAccount { amount: 10, ..vault },
        unix_timestamp: 0,
    };
    assert_eq!(
        flip_with_outcome(&mut f, 50, 0, 0),
        Err(InstructionError::Token(TokenError::InsufficientFunds))
    );
    assert_eq!(f.vault.amount, 10);
    assert_eq!(f.user_token_account.amount, 100);
}

#[test]
fn zero_stake_flip_changes_nothing() {
    let mut f = funded_flip(0);
    assert_eq!(flip(&mut f, 0, 0), Ok(()));
    assert_eq!(f.vault.amount, 1000);
    assert_eq!(f.user_token_account.amount, 100);
}

#[test]
fn deposit_by_stranger_is_unauthorized() {
    let (state, vault) = initialized();
    let mut d = Deposit {
        state,
        owner: addr(PLAYER),
        owner_token_account: account(PLAYER, 500),
        vault,
    };
    assert_eq!(deposit(&mut d, 100), Err(InstructionError::Custom(CustomError::Unauthorized)));
    assert_eq!(d.owner_token_account.amount, 500);
    assert_eq!(d.vault.amount, 0);
}

#[test]
fn deposit_beyond_balance_fails() {
    let (state, vault) = initialized();
    let mut d = Deposit {
        state,
        owner: addr(OWNER),
        owner_token_account: account(OWNER, 99),
        vault,
    };
    assert_eq!(deposit(&mut d, 100), Err(InstructionError::Token(TokenError::InsufficientFunds)));
    assert_eq!(d.owner_token_account.amount, 99);
    assert_eq!(d.vault.amount, 0);
}

#[test]
fn withdraw_by_owner_moves_funds() {
    let f = funded_flip(0);
    let mut w = Withdraw {
        program_id: addr(PROGRAM),
        state: f.state,
        owner: addr(OWNER),
        owner_token_account: account(OWNER, 4000),
        vault: f.vault,
    };
    assert_eq!(withdraw(&mut w, 300), Ok(()));
    assert_eq!(w.vault.amount, 700);
    assert_eq!(w.owner_token_account.amount, 4300);
}

#[test]
fn withdraw_by_stranger_is_unauthorized() {
    let f = funded_flip(0);
    let mut w = Withdraw {
        program_id: addr(PROGRAM),
        state: f.state,
        owner: addr(PLAYER),
        owner_token_account: account(PLAYER, 0),
        vault: f.vault,
    };
    assert_eq!(withdraw(&mut w, 300), Err(InstructionError::Custom(CustomError::Unauthorized)));
    assert_eq!(w.vault.amount, 1000);
    assert_eq!(w.owner_token_account.amount, 0);
}

#[test]
fn withdraw_beyond_vault_fails() {
    let f = funded_flip(0);
    let mut w = Withdraw {
        program_id: addr(PROGRAM),
        state: f.state,
        owner: addr(OWNER),
        owner_token_account: account(OWNER, 0),
        vault: f.vault,
    };
    assert_eq!(withdraw(&mut w, 1001), Err(InstructionError::Token(TokenError::InsufficientFunds)));
    assert_eq!(w.vault.amount, 1000);
}

#[test]
fn withdraw_with_wrong_bump_is_refused() {
    let f = funded_flip(0);
    let mut state = f.state;
    state.vault_bump = state.vault_bump.wrapping_sub(1);
    let mut w = Withdraw {
        program_id: addr(PROGRAM),
        state,
        owner: addr(OWNER),
        owner_token_account: account(OWNER, 0),
        vault: f.vault,
    };
    let r = withdraw(&mut w, 10);
    assert!(
        r == Err(InstructionError::InvalidSeeds)
            || r == Err(InstructionError::Token(TokenError::OwnerMismatch))
    );
    assert_eq!(w.vault.amount, 1000);
}

#[test]
fn initialize_records_owner_and_derived_bumps() {
    let (state, vault) = initialized();
    let id = Pubkey::new_from_array(PROGRAM);
    let (state_pda, state_bump) = Pubkey::find_program_address(&[b"state"], &id);
    let (vault_pda, vault_bump) = Pubkey::find_program_address(&[b"vault"], &id);
    assert_ne!(state_pda, vault_pda);
    assert!(state.owner == addr(OWNER));
    assert_eq!(state.state_bump, state_bump);
    assert_eq!(state.vault_bump, vault_bump);
    assert!(vault.owner == addr(vault_pda.to_bytes()));
    assert!(vault.mint == addr(MINT));
    assert_eq!(vault.amount, 0);
}

#[test]
fn initialize_twice_fails_and_keeps_state() {
    let mut ctx = Initialize {
        program_id: addr(PROGRAM),
        state: None,
        vault: None,
        owner: addr(OWNER),
        mint: addr(MINT),
    };
    assert_eq!(initialize(&mut ctx), Ok(()));
    let first = ctx.state.unwrap();
    ctx.owner = addr(PLAYER);
    assert_eq!(initialize(&mut ctx), Err(InstructionError::AccountAlreadyInitialized));
    let kept = ctx.state.unwrap();
    assert!(kept.owner == addr(OWNER));
    assert_eq!(kept.state_bump, first.state_bump);
    assert_eq!(kept.vault_bump, first.vault_bump);
    assert_eq!(ctx.vault.unwrap().amount, 0);
}

#[test]
fn guard_accepts_only_owner() {
    let (state, _) = initialized();
    assert_eq!(require_owner(&addr(OWNER), &state), Ok(()));
    assert_eq!(require_owner(&addr(PLAYER), &state), Err(CustomError::Unauthorized));
}

#[test]
fn transfer_error_kinds() {
    let mut a = account(OWNER, 10);
    let mut b = account(PLAYER, 0);
    assert_eq!(transfer(&mut a, &mut b, &addr(OWNER), 11), Err(TokenError::InsufficientFunds));
    assert_eq!(transfer(&mut a, &mut b, &addr(PLAYER), 5), Err(TokenError::OwnerMismatch));
    let mut other = TokenAccount { mint: addr([8u8; 32]), owner: addr(PLAYER), amount: 0 };
    assert_eq!(transfer(&mut a, &mut other, &addr(OWNER), 5), Err(TokenError::MintMismatch));
    let mut full = account(PLAYER, u64::MAX - 3);
    assert_eq!(transfer(&mut a, &mut full, &addr(OWNER), 5), Err(TokenError::Overflow));
    assert_eq!(a.amount, 10);
    assert_eq!(full.amount, u64::MAX - 3);
    assert_eq!(transfer(&mut a, &mut b, &addr(OWNER), 4), Ok(()));
    assert_eq!((a.amount, b.amount), (6, 4));
}

#[test]
fn seed_labels() {
    assert_eq!(state_seed_bytes(), b"state".to_vec());
    assert_eq!(vault_seed_bytes(), b"vault".to_vec());
}

#[test]
fn address_equality_is_bytewise() {
    let mut bytes = OWNER;
    assert!(addr(bytes) == addr(OWNER));
    assert!(addr(bytes).same_as(&addr(OWNER)));
    bytes[31] = 5;
    assert!(addr(bytes) != addr(OWNER));
    assert!(!addr(bytes).same_as(&addr(OWNER)));
}

#[test]
fn vault_balance_over_a_run() {
    let mut f = funded_flip(0);
    assert_eq!(flip(&mut f, 50, 0), Ok(()));
    f.unix_timestamp = 2;
    f.user_token_account = account(PLAYER, 100);
    assert_eq!(flip(&mut f, 30, 0), Ok(()));
    assert_eq!(flip(&mut f, 10, 3), Err(InstructionError::Custom(CustomError::InvalidSide)));
    let mut w = Withdraw {
        program_id: addr(PROGRAM),
        state: f.state,
        owner: addr(OWNER),
        owner_token_account: account(OWNER, 0),
        vault: f.vault,
    };
    assert_eq!(withdraw(&mut w, 200), Ok(()));
    assert_eq!(withdraw(&mut w, 10_000), Err(InstructionError::Token(TokenError::InsufficientFunds)));
    // 1000 deposited, +50 - 100 won, +30 lost, -200 withdrawn.
    assert_eq!(w.vault.amount, 780);
    assert_eq!(w.owner_token_account.amount, 200);
}
