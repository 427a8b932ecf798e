use vstd::prelude::*;
use crate::address::Address;
use anchor_lang::solana_program::pubkey::Pubkey;

verus! {

/// The address derived from the seeds `[seed, [bump]]` and a program identity,
/// or `None` where that derivation lands on the curve (or a seed is too long).
pub uninterp spec fn program_address_of(seed: Seq<u8>, bump: u8, program_id: Seq<u8>) -> Option<
    Seq<u8>,
>;

/// The view of an optional address.
pub open spec fn opt_view(a: Option<Address>) -> Option<Seq<u8>> {
    match a {
        Some(x) => Some(x@),
        None => None,
    }
}

/// Seed label of the global state record.
pub open spec fn state_seed() -> Seq<u8> {
    seq![115u8, 116u8, 97u8, 116u8, 101u8]
}

/// Seed label of the vault and of its signing authority.
pub open spec fn vault_seed() -> Seq<u8> {
    seq![118u8, 97u8, 117u8, 108u8, 116u8]
}

/// The state record's seed label, as bytes.
pub fn state_seed_bytes() -> (r: Vec<u8>)
    ensures
        r@ == state_seed(),
{
    let r: Vec<u8> = vec![115u8, 116u8, 97u8, 116u8, 101u8];
    assert(r@ =~= state_seed());
    r
}

/// The vault's seed label, as bytes.
pub fn vault_seed_bytes() -> (r: Vec<u8>)
    ensures
        r@ == vault_seed(),
{
    let r: Vec<u8> = vec![118u8, 97u8, 117u8, 108u8, 116u8];
    assert(r@ =~= vault_seed());
    r
}

/// Relies on `Pubkey::create_program_address` of solana_program, called with the
/// seeds `[seed, [bump]]`: its result depends on the seeds and the program id alone.
#[verifier::external_body]
pub(crate) fn create_program_address(seed: &[u8], bump: u8, program_id: &Address) -> (r: Option<
    Address,
>)
    ensures
        opt_view(r) == program_address_of(seed@, bump, program_id@),
{
    let id = Pubkey::new_from_array(program_id.bytes);
    match Pubkey::create_program_address(&[seed, &[bump]], &id) {
        Ok(p) => Some(Address { bytes: p.to_bytes() }),
        Err(_) => None,
    }
}

/// Relies on `Pubkey::try_find_program_address` of solana_program, called with the
/// seeds `[seed]`: it tries the bumps from 255 down to 1 through
/// `create_program_address` and returns the first address found, with its bump.
#[verifier::external_body]
pub(crate) fn find_program_address(seed: &[u8], program_id: &Address) -> (r: Option<(Address, u8)>)
    ensures
        match r {
            Some((a, b)) => {
                &&& 1 <= b
                &&& program_address_of(seed@, b, program_id@) == Some(a@)
                &&& forall|c: u8|
                    b < c ==> (#[trigger] program_address_of(seed@, c, program_id@)) is None
            },
            None => forall|c: u8|
                1 <= c ==> (#[trigger] program_address_of(seed@, c, program_id@)) is None,
        },
{
    let id = Pubkey::new_from_array(program_id.bytes);
    match Pubkey::try_find_program_address(&[seed], &id) {
        Some((p, b)) => Some((Address { bytes: p.to_bytes() }, b)),
        None => None,
    }
}

} // verus!
