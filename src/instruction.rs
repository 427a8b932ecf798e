use vstd::prelude::*;
use vstd::bytes::{spec_u64_to_le_bytes, u64_to_le_bytes};
use crate::outcome::{sha256, sha256_of};

verus! {

/// The namespace that prefixes every instruction name before hashing.
pub open spec fn global_namespace() -> Seq<u8> {
    seq![103u8, 108u8, 111u8, 98u8, 97u8, 108u8, 58u8]
}

pub open spec fn initialize_name() -> Seq<u8> {
    seq![105u8, 110u8, 105u8, 116u8, 105u8, 97u8, 108u8, 105u8, 122u8, 101u8]
}

pub open spec fn deposit_name() -> Seq<u8> {
    seq![100u8, 101u8, 112u8, 111u8, 115u8, 105u8, 116u8]
}

pub open spec fn flip_name() -> Seq<u8> {
    seq![102u8, 108u8, 105u8, 112u8]
}

pub open spec fn withdraw_name() -> Seq<u8> {
    seq![119u8, 105u8, 116u8, 104u8, 100u8, 114u8, 97u8, 119u8]
}

/// The eight bytes that select an instruction: the start of the digest of
/// the namespace followed by the instruction's name.
pub open spec fn discriminator_of(name: Seq<u8>) -> Seq<u8> {
    sha256_of(global_namespace() + name).subrange(0, 8)
}

/// Computes the selector of the instruction called `name`.
pub fn discriminator(name: &[u8]) -> (r: Vec<u8>)
    ensures
        r@ == discriminator_of(name@),
{
    let mut data: Vec<u8> = vec![103u8, 108u8, 111u8, 98u8, 97u8, 108u8, 58u8];
    assert(data@ =~= global_namespace());
    let mut i: usize = 0;
    while i < name.len()
        invariant
            0 <= i <= name@.len(),
            data@ == global_namespace() + name@.subrange(0, i as int),
        decreases name@.len() - i,
    {
        data.push(name[i]);
        i = i + 1;
        assert(data@ =~= global_namespace() + name@.subrange(0, i as int));
    }
    assert(name@.subrange(0, name@.len() as int) =~= name@);
    let digest = sha256(data.as_slice());
    let mut r: Vec<u8> = Vec::new();
    let mut j: usize = 0;
    while j < 8
        invariant
            0 <= j <= 8,
            digest@.len() == 32,
            r@ == digest@.subrange(0, j as int),
        decreases 8 - j,
    {
        r.push(digest[j]);
        j = j + 1;
        assert(r@ =~= digest@.subrange(0, j as int));
    }
    r
}

/// Appends `tail` to `head`.
fn append(head: &mut Vec<u8>, tail: &Vec<u8>)
    ensures
        final(head)@ == old(head)@ + tail@,
{
    let ghost start = head@;
    let mut i: usize = 0;
    while i < tail.len()
        invariant
            0 <= i <= tail@.len(),
            head@ == start + tail@.subrange(0, i as int),
        decreases tail@.len() - i,
    {
        head.push(tail[i]);
        i = i + 1;
        assert(head@ =~= start + tail@.subrange(0, i as int));
    }
    assert(tail@.subrange(0, tail@.len() as int) =~= tail@);
}

/// The data of an `initialize` instruction: its selector alone.
pub fn encode_initialize() -> (r: Vec<u8>)
    ensures
        r@ == discriminator_of(initialize_name()),
{
    let name: Vec<u8> = vec![105u8, 110u8, 105u8, 116u8, 105u8, 97u8, 108u8, 105u8, 122u8, 101u8];
    assert(name@ =~= initialize_name());
    discriminator(name.as_slice())
}

/// The data of a `deposit` instruction: its selector, then the amount in little-endian order.
pub fn encode_deposit(amount: u64) -> (r: Vec<u8>)
    ensures
        r@ == discriminator_of(deposit_name()) + spec_u64_to_le_bytes(amount),
{
    let name: Vec<u8> = vec![100u8, 101u8, 112u8, 111u8, 115u8, 105u8, 116u8];
    assert(name@ =~= deposit_name());
    let mut r = discriminator(name.as_slice());
    append(&mut r, &u64_to_le_bytes(amount));
    r
}

/// The data of a `withdraw` instruction: its selector, then the amount in little-endian order.
pub fn encode_withdraw(amount: u64) -> (r: Vec<u8>)
    ensures
        r@ == discriminator_of(withdraw_name()) + spec_u64_to_le_bytes(amount),
{
    let name: Vec<u8> = vec![119u8, 105u8, 116u8, 104u8, 100u8, 114u8, 97u8, 119u8];
    assert(name@ =~= withdraw_name());
    let mut r = discriminator(name.as_slice());
    append(&mut r, &u64_to_le_bytes(amount));
    r
}

/// The data of a `flip` instruction: its selector, the stake in little-endian order,
/// then the side byte.
pub fn encode_flip(amount: u64, side: u8) -> (r: Vec<u8>)
    ensures
        r@ == discriminator_of(flip_name()) + spec_u64_to_le_bytes(amount) + seq![side],
{
    let name: Vec<u8> = vec![102u8, 108u8, 105u8, 112u8];
    assert(name@ =~= flip_name());
    let mut r = discriminator(name.as_slice());
    append(&mut r, &u64_to_le_bytes(amount));
    r.push(side);
    r
}

} // verus!
