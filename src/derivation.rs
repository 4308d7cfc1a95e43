use crate::key::Key;
use anchor_lang::prelude::Pubkey;
use vstd::prelude::*;

verus! {

/// The address that `Pubkey::create_program_address` gives for these seeds
/// under this program, or `None` where it gives an error.
pub uninterp spec fn program_address(seeds: Seq<Seq<u8>>, program_id: Seq<u8>) -> Option<Seq<u8>>;

/// What `Pubkey::try_find_program_address` gives for these seeds under this program.
pub uninterp spec fn found_program_address(seeds: Seq<Seq<u8>>, program_id: Seq<u8>) -> Option<(Seq<u8>, u8)>;

/// Relies on `Pubkey::create_program_address`: the address depends on the seeds
/// and the program alone; an error (too many or too long seeds, a point on the
/// curve) becomes `None`.
#[verifier::external_body]
fn create_program_address(seeds: &Vec<Vec<u8>>, program_id: &Key) -> (r: Option<Key>)
    ensures
        match r {
            Some(k) => program_address(seeds.deep_view(), program_id@) == Some(k@),
            None => program_address(seeds.deep_view(), program_id@) is None,
        },
{
    let slices: Vec<&[u8]> = seeds.iter().map(|s| s.as_slice()).collect();
    match Pubkey::create_program_address(&slices, &Pubkey::new_from_array(program_id.bytes)) {
        Ok(k) => Some(Key { bytes: k.to_bytes() }),
        Err(_) => None,
    }
}

/// Relies on `Pubkey::try_find_program_address`: the result depends on the seeds
/// and the program alone, and a found bump appended to the seeds makes
/// `create_program_address` give the found address.
#[verifier::external_body]
fn try_find_program_address(seeds: &Vec<Vec<u8>>, program_id: &Key) -> (r: Option<(Key, u8)>)
    ensures
        match r {
            Some((k, b)) => {
                &&& found_program_address(seeds.deep_view(), program_id@) == Some((k@, b))
                &&& program_address(seeds.deep_view().push(seq![b]), program_id@) == Some(k@)
            },
            None => found_program_address(seeds.deep_view(), program_id@) is None,
        },
{
    let slices: Vec<&[u8]> = seeds.iter().map(|s| s.as_slice()).collect();
    match Pubkey::try_find_program_address(&slices, &Pubkey::new_from_array(program_id.bytes)) {
        Some((k, b)) => Some((Key { bytes: k.to_bytes() }, b)),
        None => None,
    }
}

/// The domain tag `b"escrow"` that every offer's seeds begin with.
pub open spec fn escrow_tag() -> Seq<u8> {
    seq![101u8, 115u8, 99u8, 114u8, 111u8, 119u8]
}

/// The eight bytes of `v`, least significant first.
pub open spec fn le_bytes(v: u64) -> Seq<u8> {
    seq![
        (v & 0xff) as u8,
        ((v >> 8u64) & 0xff) as u8,
        ((v >> 16u64) & 0xff) as u8,
        ((v >> 24u64) & 0xff) as u8,
        ((v >> 32u64) & 0xff) as u8,
        ((v >> 40u64) & 0xff) as u8,
        ((v >> 48u64) & 0xff) as u8,
        ((v >> 56u64) & 0xff) as u8,
    ]
}

/// The seeds of the offer that `maker` made under `seed`: the tag, the maker, the seed.
pub open spec fn escrow_seeds_of(maker: Seq<u8>, seed: u64) -> Seq<Seq<u8>> {
    seq![escrow_tag(), maker, le_bytes(seed)]
}

/// The seeds of the associated token account of `wallet` for `mint`.
pub open spec fn associated_seeds_of(wallet: Seq<u8>, token_program: Seq<u8>, mint: Seq<u8>) -> Seq<Seq<u8>> {
    seq![wallet, token_program, mint]
}

/// The address of the offer that `maker` made under `seed`, where one can be derived.
pub open spec fn escrow_address_of(program_id: Seq<u8>, maker: Seq<u8>, seed: u64) -> Option<Seq<u8>> {
    match found_program_address(escrow_seeds_of(maker, seed), program_id) {
        Some((a, _)) => Some(a),
        None => None,
    }
}

/// The associated token account address of `wallet` for `mint`, where one can be derived.
pub open spec fn associated_address_of(
    ata_program: Seq<u8>,
    token_program: Seq<u8>,
    wallet: Seq<u8>,
    mint: Seq<u8>,
) -> Option<Seq<u8>> {
    match found_program_address(associated_seeds_of(wallet, token_program, mint), ata_program) {
        Some((a, _)) => Some(a),
        None => None,
    }
}

proof fn lemma_bytes_deep_view(v: Vec<u8>)
    ensures
        v.deep_view() == v@,
{
    assert(v.deep_view() =~= v@);
}

/// The bytes of `v`, least significant first.
pub fn le_bytes_of(v: u64) -> (r: Vec<u8>)
    ensures
        r@ == le_bytes(v),
{
    let r = vec![
        (v & 0xff) as u8,
        ((v >> 8u64) & 0xff) as u8,
        ((v >> 16u64) & 0xff) as u8,
        ((v >> 24u64) & 0xff) as u8,
        ((v >> 32u64) & 0xff) as u8,
        ((v >> 40u64) & 0xff) as u8,
        ((v >> 48u64) & 0xff) as u8,
        ((v >> 56u64) & 0xff) as u8,
    ];
    assert(r@ =~= le_bytes(v));
    r
}

/// The seeds `["escrow", maker, le(seed)]` of an offer.
pub fn escrow_seeds(maker: &Key, seed: u64) -> (r: Vec<Vec<u8>>)
    ensures
        r.deep_view() == escrow_seeds_of(maker@, seed),
{
    let tag: Vec<u8> = vec![101u8, 115u8, 99u8, 114u8, 111u8, 119u8];
    let mut r: Vec<Vec<u8>> = Vec::new();
    r.push(tag);
    r.push(maker.to_vec());
    r.push(le_bytes_of(seed));
    proof {
        lemma_bytes_deep_view(r[0]);
        lemma_bytes_deep_view(r[1]);
        lemma_bytes_deep_view(r[2]);
    }
    assert(r.deep_view() =~= escrow_seeds_of(maker@, seed));
    r
}

/// The seeds of an offer followed by its bump: what signs for the offer's address.
pub fn signer_seeds(maker: &Key, seed: u64, bump: u8) -> (r: Vec<Vec<u8>>)
    ensures
        r.deep_view() == escrow_seeds_of(maker@, seed).push(seq![bump]),
{
    let mut r = escrow_seeds(maker, seed);
    let ghost before = r.deep_view();
    assert(r@.len() == before.len());
    let b: Vec<u8> = vec![bump];
    r.push(b);
    proof {
        lemma_bytes_deep_view(r[3]);
        assert(r.deep_view()[3] == seq![bump]);
        assert(forall|i: int| 0 <= i < 3 ==> r.deep_view()[i] == before[i]);
        assert(r.deep_view() =~= before.push(seq![bump]));
    }
    assert(r.deep_view() =~= escrow_seeds_of(maker@, seed).push(seq![bump]));
    r
}

/// Derives the address of the offer that `maker` makes under `seed`, and its bump.
pub fn escrow_address(program_id: &Key, maker: &Key, seed: u64) -> (r: Option<(Key, u8)>)
    ensures
        match r {
            Some((a, b)) => {
                &&& found_program_address(escrow_seeds_of(maker@, seed), program_id@) == Some((a@, b))
                &&& program_address(escrow_seeds_of(maker@, seed).push(seq![b]), program_id@) == Some(a@)
            },
            None => escrow_address_of(program_id@, maker@, seed) is None,
        },
{
    let seeds = escrow_seeds(maker, seed);
    try_find_program_address(&seeds, program_id)
}

/// Whether `address` is the one that the seeds of `maker`'s offer `seed`, with
/// `bump` appended, derive: the check that stands in for a signature of that address.
pub fn is_escrow_signer(program_id: &Key, maker: &Key, seed: u64, bump: u8, address: &Key) -> (r: bool)
    ensures
        r == (program_address(escrow_seeds_of(maker@, seed).push(seq![bump]), program_id@) == Some(address@)),
{
    let seeds = signer_seeds(maker, seed, bump);
    match create_program_address(&seeds, program_id) {
        Some(k) => {
            proof {
                Key::lemma_view_injective(k, *address);
            }
            k == *address
        },
        None => false,
    }
}

/// Derives the associated token account of `wallet` for `mint`.
pub fn associated_address(ata_program: &Key, token_program: &Key, wallet: &Key, mint: &Key) -> (r: Option<Key>)
    ensures
        match r {
            Some(a) => associated_address_of(ata_program@, token_program@, wallet@, mint@) == Some(a@),
            None => associated_address_of(ata_program@, token_program@, wallet@, mint@) is None,
        },
{
    let mut seeds: Vec<Vec<u8>> = Vec::new();
    seeds.push(wallet.to_vec());
    seeds.push(token_program.to_vec());
    seeds.push(mint.to_vec());
    proof {
        lemma_bytes_deep_view(seeds[0]);
        lemma_bytes_deep_view(seeds[1]);
        lemma_bytes_deep_view(seeds[2]);
    }
    assert(seeds.deep_view() =~= associated_seeds_of(wallet@, token_program@, mint@));
    match try_find_program_address(&seeds, ata_program) {
        Some((a, _)) => Some(a),
        None => None,
    }
}

} // verus!
