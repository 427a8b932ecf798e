//! A custodial coin-flip wager vault, modelled as a verified state machine.
//!
//! The owner funds a pooled vault; anyone may stake on a 50/50 flip whose
//! outcome is derived from the ledger timestamp and the caller's identity.
//! Every instruction either commits all of its transfers or leaves every
//! account exactly as it found it.
mod address;
mod token;
mod pda;
mod outcome;
mod program;
mod laws;
mod instruction;

pub use address::Address;
pub use token::{transfer, transfer_result, TokenAccount, TokenError};
pub use pda::{
    opt_view, program_address_of, state_seed, state_seed_bytes, vault_seed, vault_seed_bytes,
};
pub use outcome::{coin_outcome, outcome_input, outcome_of, sha256_of};
pub use program::{
    deposit, deposit_result, flip, flip_result, flip_with_outcome, initialize, initialize_error,
    initialize_ok, is_canonical_bump, is_owner, no_viable_bump, require_owner, settles, withdraw,
    withdraw_result, CustomError, Deposit, Flip, Initialize, InstructionError, State, Withdraw,
};
pub use laws::{
    deposit_conserves, deposit_requires_owner, flip_conserves, flip_overflow_is_refused,
    flip_rejects_invalid_side, initialize_only_once, outcome_is_deterministic, total_change,
    transfer_conserves, vault_change, vault_conservation, withdraw_conserves,
    withdraw_requires_owner, Movement,
};
pub use instruction::{
    deposit_name, discriminator, discriminator_of, encode_deposit, encode_flip, encode_initialize,
    encode_withdraw, flip_name, global_namespace, initialize_name, withdraw_name,
};
