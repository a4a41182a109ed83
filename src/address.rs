use vstd::prelude::*;

use crate::state::Pubkey;

verus! {

/// The seed that separates note addresses from any other address of the program.
pub open spec fn note_seed_prefix() -> Seq<u8> {
    seq![110u8, 111u8, 116u8, 101u8]
}

/// The little-endian encoding of `x` in `n` bytes.
pub open spec fn le_bytes(x: nat, n: nat) -> Seq<u8>
    decreases n,
{
    if n == 0 {
        Seq::empty()
    } else {
        seq![(x % 256) as u8] + le_bytes(x / 256, (n - 1) as nat)
    }
}

/// The seeds of the note that `owner` keeps under `note_id`.
pub open spec fn note_seeds(owner: Seq<u8>, note_id: u64) -> Seq<Seq<u8>> {
    seq![note_seed_prefix(), owner, le_bytes(note_id as nat, 8)]
}

/// The program address, and its bump, that the seeds give under the program.
pub uninterp spec fn program_address_of(seeds: Seq<Seq<u8>>, program_id: Seq<u8>) -> Option<(Seq<u8>, u8)>;

/// The address of the note that `owner` keeps under `note_id`, if one can be derived.
pub open spec fn note_address(owner: Seq<u8>, note_id: u64, program_id: Seq<u8>) -> Option<Seq<u8>> {
    match program_address_of(note_seeds(owner, note_id), program_id) {
        Some(found) => Some(found.0),
        None => None,
    }
}

/// Relies on `Pubkey::try_find_program_address` of solana_program, as anchor_lang
/// re-exports it: the address and bump depend on the seeds and the program id
/// alone, and more than fifteen seeds, or a seed longer than 32 bytes, give none.
#[verifier::external_body]
fn try_find_program_address(seeds: &Vec<Vec<u8>>, program_id: &Pubkey) -> (r: Option<(Pubkey, u8)>)
    ensures
        r is Some ==> program_address_of(seeds.deep_view(), program_id@) == Some(
            ((r->0).0@, (r->0).1),
        ),
        r is None ==> program_address_of(seeds.deep_view(), program_id@) is None,
        seeds@.len() >= 16 || (exists|i: int| 0 <= i < seeds@.len() && seeds@[i]@.len() > 32)
            ==> r is None,
{
    let refs: Vec<&[u8]> = seeds.iter().map(|s| s.as_slice()).collect();
    let program = anchor_lang::solana_program::pubkey::Pubkey::new_from_array(program_id.bytes);
    anchor_lang::solana_program::pubkey::Pubkey::try_find_program_address(&refs, &program).map(
        |(key, bump)| (Pubkey { bytes: key.to_bytes() }, bump),
    )
}

/// The `n`-byte little-endian encoding of `x`.
fn le_bytes_exec(x: u64, n: usize) -> (r: Vec<u8>)
    ensures
        r@ == le_bytes(x as nat, n as nat),
{
    let mut out: Vec<u8> = Vec::new();
    let mut rest: u64 = x;
    let mut i: usize = 0;
    while i < n
        invariant
            0 <= i <= n,
            out@ + le_bytes(rest as nat, (n - i) as nat) == le_bytes(x as nat, n as nat),
        decreases n - i,
    {
        assert(le_bytes(rest as nat, (n - i) as nat) == seq![(rest % 256) as u8] + le_bytes(
            (rest / 256) as nat,
            (n - i - 1) as nat,
        ));
        out.push((rest % 256) as u8);
        rest = rest / 256;
        i = i + 1;
        assert(out@ + le_bytes(rest as nat, (n - i) as nat) =~= le_bytes(x as nat, n as nat));
    }
    assert(le_bytes(rest as nat, 0) =~= Seq::<u8>::empty());
    assert(out@ =~= out@ + le_bytes(rest as nat, (n - i) as nat));
    out
}

/// The seeds of the note that `owner` keeps under `note_id`.
pub fn note_seeds_exec(owner: &Pubkey, note_id: u64) -> (r: Vec<Vec<u8>>)
    ensures
        r.deep_view() == note_seeds(owner@, note_id),
{
    let prefix: Vec<u8> = vec![110u8, 111u8, 116u8, 101u8];
    let key = owner.to_vec();
    let id = le_bytes_exec(note_id, 8);
    let mut seeds: Vec<Vec<u8>> = Vec::new();
    seeds.push(prefix);
    seeds.push(key);
    seeds.push(id);
    assert(seeds@[0].deep_view() =~= note_seed_prefix());
    assert(seeds@[1].deep_view() =~= owner@);
    assert(seeds@[2].deep_view() =~= le_bytes(note_id as nat, 8));
    assert(seeds.deep_view() =~= note_seeds(owner@, note_id));
    seeds
}

/// Derives the address of the note that `owner` keeps under `note_id`.
pub fn derive_note_address(owner: &Pubkey, note_id: u64, program_id: &Pubkey) -> (r: Option<Pubkey>)
    ensures
        r is Some <==> note_address(owner@, note_id, program_id@) is Some,
        r is Some ==> note_address(owner@, note_id, program_id@) == Some(r->0@),
{
    let seeds = note_seeds_exec(owner, note_id);
    match try_find_program_address(&seeds, program_id) {
        Some(found) => Some(found.0),
        None => None,
    }
}

} // verus!
