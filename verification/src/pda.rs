use vstd::prelude::*;
use vstd::bytes::spec_u64_to_le_bytes;
use vstd::bytes::u64_to_le_bytes;
use crate::keys::Pubkey;
use crate::keys::spec_program_id;
use crate::keys::spec_ata_program_id;
use crate::keys::program_id;
use crate::keys::ata_program_id;

verus! {

/// What the bump-searching derivation returns for a seed list and a
/// program id: the derived address and its bump, or nothing in the
/// statistically improbable event that no bump yields a valid address.
/// The result is a function of the arguments alone.
pub uninterp spec fn pda_find(seeds: Seq<Seq<u8>>, program_id: Seq<u8>) -> Option<
    (Seq<u8>, u8),
>;

/// What single-shot derivation returns for a seed list (bump included as
/// the last seed) and a program id: the derived address, or nothing when
/// these seeds yield no valid address. The result is a function of the
/// arguments alone.
pub uninterp spec fn pda_create(seeds: Seq<Seq<u8>>, program_id: Seq<u8>) -> Option<Seq<u8>>;

/// The byte sequences of a list of seed byte vectors.
pub open spec fn seed_seqs(seeds: Seq<Vec<u8>>) -> Seq<Seq<u8>> {
    seeds.map_values(|s: Vec<u8>| s@)
}

/// Relies on solana_pubkey::Pubkey::try_find_program_address: searches
/// bumps from 255 downward and returns the first derived address that
/// falls outside the key space, with its bump; the pair re-derives to the
/// same address when the bump is appended to the seeds and handed to
/// create_program_address.
#[verifier::external_body]
pub(crate) fn find_program_address(seeds: &Vec<Vec<u8>>, pid: &Pubkey) -> (r: Option<(Pubkey, u8)>)
    ensures
        match r {
            Some((addr, bump)) => {
                &&& pda_find(seed_seqs(seeds@), pid.bytes()) == Some((addr.bytes(), bump))
                &&& pda_create(seed_seqs(seeds@).push(seq![bump]), pid.bytes()) == Some(
                    addr.bytes(),
                )
            },
            None => pda_find(seed_seqs(seeds@), pid.bytes()) is None,
        },
{
    let refs: Vec<&[u8]> = seeds.iter().map(|s| s.as_slice()).collect();
    let mut id = [0u8; 32];
    id.copy_from_slice(&pid.to_bytes());
    let id = solana_pubkey::Pubkey::new_from_array(id);
    match solana_pubkey::Pubkey::try_find_program_address(&refs, &id) {
        Some((addr, bump)) => Some((Pubkey::from_bytes(addr.as_ref()), bump)),
        None => None,
    }
}

/// Relies on solana_pubkey::Pubkey::create_program_address: derives the
/// address for these exact seeds, or fails when a seed is over-long or the
/// derived bytes fall inside the key space.
#[verifier::external_body]
pub(crate) fn create_program_address(seeds: &Vec<Vec<u8>>, pid: &Pubkey) -> (r: Option<Pubkey>)
    ensures
        match r {
            Some(addr) => pda_create(seed_seqs(seeds@), pid.bytes()) == Some(addr.bytes()),
            None => pda_create(seed_seqs(seeds@), pid.bytes()) is None,
        },
{
    let refs: Vec<&[u8]> = seeds.iter().map(|s| s.as_slice()).collect();
    let mut id = [0u8; 32];
    id.copy_from_slice(&pid.to_bytes());
    let id = solana_pubkey::Pubkey::new_from_array(id);
    match solana_pubkey::Pubkey::create_program_address(&refs, &id) {
        Ok(addr) => Some(Pubkey::from_bytes(addr.as_ref())),
        Err(_) => None,
    }
}

/// The namespace tag of every per-offer authority: the bytes of "escrow".
pub open spec fn spec_escrow_tag() -> Seq<u8> {
    seq![101u8, 115u8, 99u8, 114u8, 111u8, 119u8]
}

/// The namespace tag of the shared pool authority: the bytes of
/// "protocol".
pub open spec fn spec_protocol_tag() -> Seq<u8> {
    seq![112u8, 114u8, 111u8, 116u8, 111u8, 99u8, 111u8, 108u8]
}

/// The seed list identifying one offer's authority: the namespace tag,
/// the maker, and the caller-chosen seed in little-endian bytes.
pub open spec fn spec_escrow_seeds(maker: Pubkey, seed: u64) -> Seq<Seq<u8>> {
    seq![spec_escrow_tag(), maker.bytes(), spec_u64_to_le_bytes(seed)]
}

/// The derived address and bump of one offer's authority.
pub open spec fn spec_escrow_address(maker: Pubkey, seed: u64) -> Option<(Seq<u8>, u8)> {
    pda_find(spec_escrow_seeds(maker, seed), spec_program_id().bytes())
}

/// The seed list identifying a holder's canonical account for an asset
/// under a given token program.
pub open spec fn spec_ata_seeds(owner: Pubkey, token_program: Pubkey, mint: Pubkey) -> Seq<
    Seq<u8>,
> {
    seq![owner.bytes(), token_program.bytes(), mint.bytes()]
}

/// The derived address and bump of a holder's canonical token account.
pub open spec fn spec_ata_address(owner: Pubkey, token_program: Pubkey, mint: Pubkey) -> Option<
    (Seq<u8>, u8),
> {
    pda_find(spec_ata_seeds(owner, token_program, mint), spec_ata_program_id().bytes())
}

/// The derived address and bump of the shared flash-loan pool authority.
pub open spec fn spec_protocol_address() -> Option<(Seq<u8>, u8)> {
    pda_find(seq![spec_protocol_tag()], spec_program_id().bytes())
}

/// Builds the seed vectors for one offer's authority.
pub fn escrow_seeds(maker: &Pubkey, seed: u64) -> (r: Vec<Vec<u8>>)
    ensures
        seed_seqs(r@) == spec_escrow_seeds(*maker, seed),
{
    let tag: Vec<u8> = vec![101u8, 115u8, 99u8, 114u8, 111u8, 119u8];
    let maker_bytes = maker.to_bytes();
    let seed_bytes = u64_to_le_bytes(seed);
    let r = vec![tag, maker_bytes, seed_bytes];
    assert(seed_seqs(r@) =~= spec_escrow_seeds(*maker, seed));
    r
}

/// Builds the seed vectors for one offer's authority with its proof byte
/// appended, as single-shot re-derivation expects them.
pub fn escrow_seeds_with_bump(maker: &Pubkey, seed: u64, bump: u8) -> (r: Vec<Vec<u8>>)
    ensures
        seed_seqs(r@) == spec_escrow_seeds(*maker, seed).push(seq![bump]),
{
    let tag: Vec<u8> = vec![101u8, 115u8, 99u8, 114u8, 111u8, 119u8];
    let maker_bytes = maker.to_bytes();
    let seed_bytes = u64_to_le_bytes(seed);
    let bump_bytes: Vec<u8> = vec![bump];
    assert(bump_bytes@ =~= seq![bump]);
    let r = vec![tag, maker_bytes, seed_bytes, bump_bytes];
    assert(seed_seqs(r@) =~= spec_escrow_seeds(*maker, seed).push(seq![bump]));
    r
}

/// Derives the address and proof byte of one offer's authority.
pub fn derive_escrow_address(maker: &Pubkey, seed: u64) -> (r: Option<(Pubkey, u8)>)
    ensures
        match r {
            Some((key, bump)) => {
                &&& spec_escrow_address(*maker, seed) == Some((key.bytes(), bump))
                &&& pda_create(
                    spec_escrow_seeds(*maker, seed).push(seq![bump]),
                    spec_program_id().bytes(),
                ) == Some(key.bytes())
            },
            None => spec_escrow_address(*maker, seed) is None,
        },
{
    let seeds = escrow_seeds(maker, seed);
    let pid = program_id();
    find_program_address(&seeds, &pid)
}

/// Re-derives one offer's authority address from its seeds and recorded
/// proof byte, as `Take` and `Refund` do to bind the record to its vault.
pub fn reconstruct_escrow_address(maker: &Pubkey, seed: u64, bump: u8) -> (r: Option<Pubkey>)
    ensures
        match r {
            Some(key) => pda_create(
                spec_escrow_seeds(*maker, seed).push(seq![bump]),
                spec_program_id().bytes(),
            ) == Some(key.bytes()),
            None => pda_create(
                spec_escrow_seeds(*maker, seed).push(seq![bump]),
                spec_program_id().bytes(),
            ) is None,
        },
{
    let seeds = escrow_seeds_with_bump(maker, seed, bump);
    let pid = program_id();
    create_program_address(&seeds, &pid)
}

/// Derives a holder's canonical token-account address for an asset.
pub fn derive_ata_address(owner: &Pubkey, token_program: &Pubkey, mint: &Pubkey) -> (r: Option<
    (Pubkey, u8),
>)
    ensures
        match r {
            Some((key, bump)) => spec_ata_address(*owner, *token_program, *mint) == Some(
                (key.bytes(), bump),
            ),
            None => spec_ata_address(*owner, *token_program, *mint) is None,
        },
{
    let owner_bytes = owner.to_bytes();
    let tp_bytes = token_program.to_bytes();
    let mint_bytes = mint.to_bytes();
    let seeds = vec![owner_bytes, tp_bytes, mint_bytes];
    let pid = ata_program_id();
    assert(seed_seqs(seeds@) =~= spec_ata_seeds(*owner, *token_program, *mint));
    find_program_address(&seeds, &pid)
}

/// Derives the shared flash-loan pool authority.
pub fn derive_protocol_address() -> (r: Option<(Pubkey, u8)>)
    ensures
        match r {
            Some((key, bump)) => spec_protocol_address() == Some((key.bytes(), bump)),
            None => spec_protocol_address() is None,
        },
{
    let tag: Vec<u8> = vec![112u8, 114u8, 111u8, 116u8, 111u8, 99u8, 111u8, 108u8];
    let seeds = vec![tag];
    let pid = program_id();
    assert(seed_seqs(seeds@) =~= seq![spec_protocol_tag()]);
    find_program_address(&seeds, &pid)
}

} // verus!
