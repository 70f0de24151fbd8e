use vstd::prelude::*;
use anchor_lang::prelude::Pubkey;
use crate::key::Key;

verus! {

/// The program-derived address and bump found for `seeds` under `program_id`,
/// or `None` where no bump gives an address off the curve.
pub uninterp spec fn program_address(seeds: Seq<Seq<u8>>, program_id: Seq<u8>) -> Option<(Seq<u8>, u8)>;

/// Relies on anchor_lang's `Pubkey::try_find_program_address`: a search over
/// bump seeds whose outcome depends on the seeds and the program id alone.
#[verifier::external_body]
fn try_find_program_address(seeds: &Vec<Vec<u8>>, program_id: &Key) -> (r: Option<(Key, u8)>)
    ensures
        match r {
            Some(found) => program_address(seeds@.map_values(|s: Vec<u8>| s@), program_id@)
                == Some((found.0@, found.1)),
            None => program_address(seeds@.map_values(|s: Vec<u8>| s@), program_id@) is None,
        },
{
    let parts: Vec<&[u8]> = seeds.iter().map(|s| s.as_slice()).collect();
    Pubkey::try_find_program_address(&parts, &Pubkey::new_from_array(program_id.bytes)).map(
        |(pk, bump)| (Key { bytes: pk.to_bytes() }, bump),
    )
}

/// The first `n` bytes of `x` in little-endian order.
pub open spec fn le_bytes(x: nat, n: nat) -> Seq<u8>
    decreases n,
{
    if n == 0 {
        Seq::empty()
    } else {
        seq![(x % 256) as u8] + le_bytes(x / 256, (n - 1) as nat)
    }
}

/// The tag that opens the seeds of every escrow record address: `b"escrow"`.
pub open spec fn escrow_tag() -> Seq<u8> {
    seq![101u8, 115u8, 99u8, 114u8, 111u8, 119u8]
}

/// The seeds of the record that `maker` opens with `seed`.
pub open spec fn escrow_seeds(maker: Seq<u8>, seed: u64) -> Seq<Seq<u8>> {
    seq![escrow_tag(), maker, le_bytes(seed as nat, 8)]
}

/// Where the record that `maker` opens with `seed` lives, with its bump.
pub open spec fn escrow_address(program_id: Seq<u8>, maker: Seq<u8>, seed: u64) -> Option<(Seq<u8>, u8)> {
    program_address(escrow_seeds(maker, seed), program_id)
}

/// The eight bytes of `x`, least significant first.
pub fn u64_le_bytes(x: u64) -> (v: Vec<u8>)
    ensures
        v@ == le_bytes(x as nat, 8),
{
    let mut v: Vec<u8> = Vec::new();
    let mut rest: u64 = x;
    let mut i: usize = 0;
    while i < 8
        invariant
            i <= 8,
            v@ + le_bytes(rest as nat, (8 - i) as nat) == le_bytes(x as nat, 8),
        decreases 8 - i,
    {
        let ghost before = v@;
        let ghost r0 = rest;
        v.push((rest % 256) as u8);
        rest = rest / 256;
        i += 1;
        assert(le_bytes(r0 as nat, (8 - i + 1) as nat) == seq![(r0 % 256) as u8] + le_bytes(
            rest as nat,
            (8 - i) as nat,
        ));
        assert(v@ + le_bytes(rest as nat, (8 - i) as nat) =~= before + le_bytes(
            r0 as nat,
            (8 - i + 1) as nat,
        ));
    }
    assert(v@ + le_bytes(rest as nat, 0) =~= v@);
    v
}

/// Derives the address of the record that `maker` opens with `seed`.
pub fn derive_escrow_address(program_id: &Key, maker: &Key, seed: u64) -> (r: Option<(Key, u8)>)
    ensures
        match r {
            Some(found) => escrow_address(program_id@, maker@, seed) == Some((found.0@, found.1)),
            None => escrow_address(program_id@, maker@, seed) is None,
        },
{
    let tag: Vec<u8> = vec![101u8, 115u8, 99u8, 114u8, 111u8, 119u8];
    let mut seeds: Vec<Vec<u8>> = Vec::new();
    seeds.push(tag);
    seeds.push(maker.to_vec());
    seeds.push(u64_le_bytes(seed));
    assert(seeds@.map_values(|s: Vec<u8>| s@) =~= escrow_seeds(maker@, seed));
    try_find_program_address(&seeds, program_id)
}

} // verus!
