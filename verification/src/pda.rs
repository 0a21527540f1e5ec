//! Deterministic address derivation.
//!
//! Every account the lifecycle operations touch is located by deriving an
//! address from a purpose tag and ordered key material. The derivation
//! itself is the ledger runtime's program-address search; this module wraps
//! that one call and builds each entity's seed tuple on top of it.

use vstd::prelude::*;
use vstd::slice::slice_to_vec;
use vstd::string::StringSliceAdditionalSpecFns;

verus! {

/// What the program-address search returns for a seed tuple and a program
/// id: the derived address and the canonical bump, or nothing when no bump
/// yields a valid derived address. The result depends on the seeds and the
/// program id alone.
pub uninterp spec fn pda_of(seeds: Seq<Seq<u8>>, program_id: Seq<u8>) -> Option<(Seq<u8>, u8)>;

/// Relates an executable derivation result to the canonical derivation: the
/// search succeeds exactly when the canonical derivation exists, and then
/// returns its 32-byte address and its bump.
pub open spec fn derives(found: Option<(Vec<u8>, u8)>, canon: Option<(Seq<u8>, u8)>) -> bool {
    match (found, canon) {
        (Some(f), Some(c)) => f.0@ == c.0 && f.1 == c.1 && f.0@.len() == 32,
        (None, None) => true,
        _ => false,
    }
}

/// Relies on solana_program::pubkey::Pubkey::try_find_program_address: the
/// result is a pure function of the seeds and the program id, and the
/// address it returns is 32 bytes long.
#[verifier::external_body]
pub fn find_program_address(seeds: &Vec<Vec<u8>>, program_id: &Vec<u8>) -> (r: Option<(
    Vec<u8>,
    u8,
)>)
    requires
        program_id@.len() == 32,
    ensures
        derives(r, pda_of(seeds.deep_view(), program_id@)),
{
    let pid = solana_program::pubkey::Pubkey::new_from_array(
        program_id.as_slice().try_into().unwrap(),
    );
    let seed_slices: Vec<&[u8]> = seeds.iter().map(|s| s.as_slice()).collect();
    solana_program::pubkey::Pubkey::try_find_program_address(&seed_slices, &pid).map(
        |(address, bump)| (address.to_bytes().to_vec(), bump),
    )
}

/// The element-wise view of a byte vector coincides with its plain view.
pub proof fn lemma_bytes_deep_view(v: Vec<u8>)
    ensures
        v.deep_view() == v@,
{
    assert(v.deep_view() =~= v@);
}

/// Copies a byte vector.
pub fn copy_bytes(v: &Vec<u8>) -> (r: Vec<u8>)
    ensures
        r@ == v@,
        r.deep_view() == v@,
{
    let r = slice_to_vec(v.as_slice());
    proof {
        lemma_bytes_deep_view(r);
    }
    r
}

/// The UTF-8 bytes of a purpose tag.
pub fn tag_bytes(tag: &str) -> (r: Vec<u8>)
    ensures
        r@ == tag.spec_bytes(),
        r.deep_view() == tag.spec_bytes(),
{
    let r = slice_to_vec(tag.as_bytes());
    proof {
        lemma_bytes_deep_view(r);
    }
    r
}

/// Appends one seed to a seed list under construction.
pub fn push_seed(seeds: &mut Vec<Vec<u8>>, seed: Vec<u8>)
    ensures
        final(seeds).deep_view() == old(seeds).deep_view().push(seed@),
{
    proof {
        lemma_bytes_deep_view(seed);
    }
    let ghost appended = seed@;
    seeds.push(seed);
    proof {
        assert(seeds.deep_view() =~= old(seeds).deep_view().push(appended));
    }
}

/// The little-endian byte serialization of a 64-bit field, as numeric key
/// material is serialized into seed tuples.
pub open spec fn u64_le_bytes(x: u64) -> Seq<u8> {
    seq![
        (x & 0xff) as u8,
        ((x >> 8) & 0xff) as u8,
        ((x >> 16) & 0xff) as u8,
        ((x >> 24) & 0xff) as u8,
        ((x >> 32) & 0xff) as u8,
        ((x >> 40) & 0xff) as u8,
        ((x >> 48) & 0xff) as u8,
        ((x >> 56) & 0xff) as u8,
    ]
}

/// Serializes a 64-bit field in little-endian byte order.
pub fn u64_to_le_bytes(x: u64) -> (r: Vec<u8>)
    ensures
        r@ == u64_le_bytes(x),
        r.deep_view() == u64_le_bytes(x),
{
    assert((x & 0xff) < 256 && ((x >> 8) & 0xff) < 256 && ((x >> 16) & 0xff) < 256 && ((x >> 24)
        & 0xff) < 256 && ((x >> 32) & 0xff) < 256 && ((x >> 40) & 0xff) < 256 && ((x >> 48) & 0xff)
        < 256 && ((x >> 56) & 0xff) < 256) by (bit_vector);
    let mut r: Vec<u8> = Vec::new();
    r.push((x & 0xff) as u8);
    r.push(((x >> 8) & 0xff) as u8);
    r.push(((x >> 16) & 0xff) as u8);
    r.push(((x >> 24) & 0xff) as u8);
    r.push(((x >> 32) & 0xff) as u8);
    r.push(((x >> 40) & 0xff) as u8);
    r.push(((x >> 48) & 0xff) as u8);
    r.push(((x >> 56) & 0xff) as u8);
    proof {
        assert(r@ =~= u64_le_bytes(x));
        lemma_bytes_deep_view(r);
    }
    r
}

// Seed tuples of the entities this program owns. Each is derived under this
// program's own id.
/// Seed tuple of a reward center: one per auction house instance.
pub open spec fn reward_center_seeds(auction_house: Seq<u8>) -> Seq<Seq<u8>> {
    seq!["reward_center".spec_bytes(), auction_house]
}

/// Seed tuple of a rewardable collection: one per (reward center,
/// collection) pair.
pub open spec fn rewardable_collection_seeds(reward_center: Seq<u8>, collection: Seq<u8>) -> Seq<
    Seq<u8>,
> {
    seq!["rewardable_collection".spec_bytes(), reward_center, collection]
}

/// Seed tuple of a listing record.
pub open spec fn listing_seeds(
    wallet: Seq<u8>,
    metadata: Seq<u8>,
    rewardable_collection: Seq<u8>,
) -> Seq<Seq<u8>> {
    seq!["listing".spec_bytes(), wallet, metadata, rewardable_collection]
}

/// Seed tuple of an offer record.
pub open spec fn offer_seeds(
    wallet: Seq<u8>,
    metadata: Seq<u8>,
    rewardable_collection: Seq<u8>,
) -> Seq<Seq<u8>> {
    seq!["offer".spec_bytes(), wallet, metadata, rewardable_collection]
}

/// The canonical derivation exists and is exactly this (address, bump) pair.
pub open spec fn addr_bump_matches(canon: Option<(Seq<u8>, u8)>, address: Seq<u8>, bump: u8) -> bool {
    canon == Some((address, bump))
}

/// The canonical derivation exists and its address is this one.
pub open spec fn addr_matches(canon: Option<(Seq<u8>, u8)>, address: Seq<u8>) -> bool {
    match canon {
        Option::Some(c) => c.0 == address,
        Option::None => false,
    }
}

/// For one seed tuple there is at most one canonical bump: two different
/// bumps cannot both pass the derivation check against the same canonical
/// derivation, so a non-canonical bump is always rejected.
pub proof fn lemma_at_most_one_canonical_bump(
    canon: Option<(Seq<u8>, u8)>,
    address: Seq<u8>,
    first: u8,
    second: u8,
)
    requires
        first != second,
    ensures
        !(addr_bump_matches(canon, address, first) && addr_bump_matches(canon, address, second)),
{
}

// Seed tuples fixed by the external auction engine's derivation scheme.
// Each is derived under the auction engine's program id.
/// Seed tuple of the auction house configuration account itself.
pub open spec fn auction_house_seeds(creator: Seq<u8>, treasury_mint: Seq<u8>) -> Seq<Seq<u8>> {
    seq!["auction_house".spec_bytes(), creator, treasury_mint]
}

/// Seed tuple of the auction engine's fee account.
pub open spec fn fee_account_seeds(auction_house: Seq<u8>) -> Seq<Seq<u8>> {
    seq!["auction_house".spec_bytes(), auction_house, "fee_payer".spec_bytes()]
}

/// Seed tuple of the auction engine's per-delegate auctioneer-scope account.
pub open spec fn auctioneer_seeds(auction_house: Seq<u8>, authority: Seq<u8>) -> Seq<Seq<u8>> {
    seq!["auctioneer".spec_bytes(), auction_house, authority]
}

/// Seed tuple of a wallet's escrow-payment account.
pub open spec fn escrow_payment_seeds(auction_house: Seq<u8>, wallet: Seq<u8>) -> Seq<Seq<u8>> {
    seq!["auction_house".spec_bytes(), auction_house, wallet]
}

/// Seed tuple of the auction engine's program-as-signer account.
pub open spec fn program_as_signer_seeds() -> Seq<Seq<u8>> {
    seq!["auction_house".spec_bytes(), "signer".spec_bytes()]
}

/// Seed tuple of a trade-state account bound to a specific token account.
pub open spec fn trade_state_seeds(
    wallet: Seq<u8>,
    auction_house: Seq<u8>,
    token_account: Seq<u8>,
    treasury_mint: Seq<u8>,
    token_mint: Seq<u8>,
    price: u64,
    token_size: u64,
) -> Seq<Seq<u8>> {
    seq![
        "auction_house".spec_bytes(),
        wallet,
        auction_house,
        token_account,
        treasury_mint,
        token_mint,
        u64_le_bytes(price),
        u64_le_bytes(token_size),
    ]
}

/// Seed tuple of a public-bid trade-state account, bound to the asset mint
/// rather than to one token account.
pub open spec fn public_bid_trade_state_seeds(
    wallet: Seq<u8>,
    auction_house: Seq<u8>,
    treasury_mint: Seq<u8>,
    token_mint: Seq<u8>,
    price: u64,
    token_size: u64,
) -> Seq<Seq<u8>> {
    seq![
        "auction_house".spec_bytes(),
        wallet,
        auction_house,
        treasury_mint,
        token_mint,
        u64_le_bytes(price),
        u64_le_bytes(token_size),
    ]
}

/// Seed tuple of an associated token account, under the associated-token
/// program's id.
pub open spec fn associated_token_seeds(
    wallet: Seq<u8>,
    token_program: Seq<u8>,
    mint: Seq<u8>,
) -> Seq<Seq<u8>> {
    seq![wallet, token_program, mint]
}

/// Derives the reward center address for an auction house instance.
pub fn derive_reward_center_address(auction_house: &Vec<u8>, rewards_program: &Vec<u8>) -> (r:
    Option<(Vec<u8>, u8)>)
    requires
        rewards_program@.len() == 32,
    ensures
        derives(r, pda_of(reward_center_seeds(auction_house@), rewards_program@)),
{
    let mut seeds: Vec<Vec<u8>> = Vec::new();
    push_seed(&mut seeds, tag_bytes("reward_center"));
    push_seed(&mut seeds, copy_bytes(auction_house));
    proof {
        assert(seeds.deep_view() =~= reward_center_seeds(auction_house@));
    }
    find_program_address(&seeds, rewards_program)
}

/// Derives the rewardable collection address for a (reward center,
/// collection) pair.
pub fn derive_rewardable_collection_address(
    reward_center: &Vec<u8>,
    collection: &Vec<u8>,
    rewards_program: &Vec<u8>,
) -> (r: Option<(Vec<u8>, u8)>)
    requires
        rewards_program@.len() == 32,
    ensures
        derives(r, pda_of(rewardable_collection_seeds(reward_center@, collection@), rewards_program@)),
{
    let mut seeds: Vec<Vec<u8>> = Vec::new();
    push_seed(&mut seeds, tag_bytes("rewardable_collection"));
    push_seed(&mut seeds, copy_bytes(reward_center));
    push_seed(&mut seeds, copy_bytes(collection));
    proof {
        assert(seeds.deep_view() =~= rewardable_collection_seeds(reward_center@, collection@));
    }
    find_program_address(&seeds, rewards_program)
}

/// Derives a listing record address.
pub fn derive_listing_address(
    wallet: &Vec<u8>,
    metadata: &Vec<u8>,
    rewardable_collection: &Vec<u8>,
    rewards_program: &Vec<u8>,
) -> (r: Option<(Vec<u8>, u8)>)
    requires
        rewards_program@.len() == 32,
    ensures
        derives(r, pda_of(listing_seeds(wallet@, metadata@, rewardable_collection@), rewards_program@)),
{
    let mut seeds: Vec<Vec<u8>> = Vec::new();
    push_seed(&mut seeds, tag_bytes("listing"));
    push_seed(&mut seeds, copy_bytes(wallet));
    push_seed(&mut seeds, copy_bytes(metadata));
    push_seed(&mut seeds, copy_bytes(rewardable_collection));
    proof {
        assert(seeds.deep_view() =~= listing_seeds(wallet@, metadata@, rewardable_collection@));
    }
    find_program_address(&seeds, rewards_program)
}

/// Derives an offer record address.
pub fn derive_offer_address(
    wallet: &Vec<u8>,
    metadata: &Vec<u8>,
    rewardable_collection: &Vec<u8>,
    rewards_program: &Vec<u8>,
) -> (r: Option<(Vec<u8>, u8)>)
    requires
        rewards_program@.len() == 32,
    ensures
        derives(r, pda_of(offer_seeds(wallet@, metadata@, rewardable_collection@), rewards_program@)),
{
    let mut seeds: Vec<Vec<u8>> = Vec::new();
    push_seed(&mut seeds, tag_bytes("offer"));
    push_seed(&mut seeds, copy_bytes(wallet));
    push_seed(&mut seeds, copy_bytes(metadata));
    push_seed(&mut seeds, copy_bytes(rewardable_collection));
    proof {
        assert(seeds.deep_view() =~= offer_seeds(wallet@, metadata@, rewardable_collection@));
    }
    find_program_address(&seeds, rewards_program)
}

/// Derives the auction house configuration account's own address.
pub fn derive_auction_house_address(
    creator: &Vec<u8>,
    treasury_mint: &Vec<u8>,
    engine_program: &Vec<u8>,
) -> (r: Option<(Vec<u8>, u8)>)
    requires
        engine_program@.len() == 32,
    ensures
        derives(r, pda_of(auction_house_seeds(creator@, treasury_mint@), engine_program@)),
{
    let mut seeds: Vec<Vec<u8>> = Vec::new();
    push_seed(&mut seeds, tag_bytes("auction_house"));
    push_seed(&mut seeds, copy_bytes(creator));
    push_seed(&mut seeds, copy_bytes(treasury_mint));
    proof {
        assert(seeds.deep_view() =~= auction_house_seeds(creator@, treasury_mint@));
    }
    find_program_address(&seeds, engine_program)
}

/// Derives the auction engine's fee account address.
pub fn derive_fee_account_address(auction_house: &Vec<u8>, engine_program: &Vec<u8>) -> (r: Option<
    (Vec<u8>, u8),
>)
    requires
        engine_program@.len() == 32,
    ensures
        derives(r, pda_of(fee_account_seeds(auction_house@), engine_program@)),
{
    let mut seeds: Vec<Vec<u8>> = Vec::new();
    push_seed(&mut seeds, tag_bytes("auction_house"));
    push_seed(&mut seeds, copy_bytes(auction_house));
    push_seed(&mut seeds, tag_bytes("fee_payer"));
    proof {
        assert(seeds.deep_view() =~= fee_account_seeds(auction_house@));
    }
    find_program_address(&seeds, engine_program)
}

/// Derives the auctioneer-scope account address for a delegated authority.
pub fn derive_auctioneer_address(
    auction_house: &Vec<u8>,
    authority: &Vec<u8>,
    engine_program: &Vec<u8>,
) -> (r: Option<(Vec<u8>, u8)>)
    requires
        engine_program@.len() == 32,
    ensures
        derives(r, pda_of(auctioneer_seeds(auction_house@, authority@), engine_program@)),
{
    let mut seeds: Vec<Vec<u8>> = Vec::new();
    push_seed(&mut seeds, tag_bytes("auctioneer"));
    push_seed(&mut seeds, copy_bytes(auction_house));
    push_seed(&mut seeds, copy_bytes(authority));
    proof {
        assert(seeds.deep_view() =~= auctioneer_seeds(auction_house@, authority@));
    }
    find_program_address(&seeds, engine_program)
}

/// Derives a wallet's escrow-payment account address.
pub fn derive_escrow_payment_address(
    auction_house: &Vec<u8>,
    wallet: &Vec<u8>,
    engine_program: &Vec<u8>,
) -> (r: Option<(Vec<u8>, u8)>)
    requires
        engine_program@.len() == 32,
    ensures
        derives(r, pda_of(escrow_payment_seeds(auction_house@, wallet@), engine_program@)),
{
    let mut seeds: Vec<Vec<u8>> = Vec::new();
    push_seed(&mut seeds, tag_bytes("auction_house"));
    push_seed(&mut seeds, copy_bytes(auction_house));
    push_seed(&mut seeds, copy_bytes(wallet));
    proof {
        assert(seeds.deep_view() =~= escrow_payment_seeds(auction_house@, wallet@));
    }
    find_program_address(&seeds, engine_program)
}

/// Derives the auction engine's program-as-signer address.
pub fn derive_program_as_signer_address(engine_program: &Vec<u8>) -> (r: Option<(Vec<u8>, u8)>)
    requires
        engine_program@.len() == 32,
    ensures
        derives(r, pda_of(program_as_signer_seeds(), engine_program@)),
{
    let mut seeds: Vec<Vec<u8>> = Vec::new();
    push_seed(&mut seeds, tag_bytes("auction_house"));
    push_seed(&mut seeds, tag_bytes("signer"));
    proof {
        assert(seeds.deep_view() =~= program_as_signer_seeds());
    }
    find_program_address(&seeds, engine_program)
}

/// Derives a trade-state address bound to a specific token account.
pub fn derive_trade_state_address(
    wallet: &Vec<u8>,
    auction_house: &Vec<u8>,
    token_account: &Vec<u8>,
    treasury_mint: &Vec<u8>,
    token_mint: &Vec<u8>,
    price: u64,
    token_size: u64,
    engine_program: &Vec<u8>,
) -> (r: Option<(Vec<u8>, u8)>)
    requires
        engine_program@.len() == 32,
    ensures
        derives(
            r,
            pda_of(
                trade_state_seeds(
                    wallet@,
                    auction_house@,
                    token_account@,
                    treasury_mint@,
                    token_mint@,
                    price,
                    token_size,
                ),
                engine_program@,
            ),
        ),
{
    let mut seeds: Vec<Vec<u8>> = Vec::new();
    push_seed(&mut seeds, tag_bytes("auction_house"));
    push_seed(&mut seeds, copy_bytes(wallet));
    push_seed(&mut seeds, copy_bytes(auction_house));
    push_seed(&mut seeds, copy_bytes(token_account));
    push_seed(&mut seeds, copy_bytes(treasury_mint));
    push_seed(&mut seeds, copy_bytes(token_mint));
    push_seed(&mut seeds, u64_to_le_bytes(price));
    push_seed(&mut seeds, u64_to_le_bytes(token_size));
    proof {
        assert(seeds.deep_view() =~= trade_state_seeds(
            wallet@,
            auction_house@,
            token_account@,
            treasury_mint@,
            token_mint@,
            price,
            token_size,
        ));
    }
    find_program_address(&seeds, engine_program)
}

/// Derives a public-bid trade-state address.
pub fn derive_public_bid_trade_state_address(
    wallet: &Vec<u8>,
    auction_house: &Vec<u8>,
    treasury_mint: &Vec<u8>,
    token_mint: &Vec<u8>,
    price: u64,
    token_size: u64,
    engine_program: &Vec<u8>,
) -> (r: Option<(Vec<u8>, u8)>)
    requires
        engine_program@.len() == 32,
    ensures
        derives(
            r,
            pda_of(
                public_bid_trade_state_seeds(
                    wallet@,
                    auction_house@,
                    treasury_mint@,
                    token_mint@,
                    price,
                    token_size,
                ),
                engine_program@,
            ),
        ),
{
    let mut seeds: Vec<Vec<u8>> = Vec::new();
    push_seed(&mut seeds, tag_bytes("auction_house"));
    push_seed(&mut seeds, copy_bytes(wallet));
    push_seed(&mut seeds, copy_bytes(auction_house));
    push_seed(&mut seeds, copy_bytes(treasury_mint));
    push_seed(&mut seeds, copy_bytes(token_mint));
    push_seed(&mut seeds, u64_to_le_bytes(price));
    push_seed(&mut seeds, u64_to_le_bytes(token_size));
    proof {
        assert(seeds.deep_view() =~= public_bid_trade_state_seeds(
            wallet@,
            auction_house@,
            treasury_mint@,
            token_mint@,
            price,
            token_size,
        ));
    }
    find_program_address(&seeds, engine_program)
}

/// Derives an associated token account address.
pub fn derive_associated_token_address(
    wallet: &Vec<u8>,
    mint: &Vec<u8>,
    token_program: &Vec<u8>,
    associated_token_program: &Vec<u8>,
) -> (r: Option<(Vec<u8>, u8)>)
    requires
        associated_token_program@.len() == 32,
    ensures
        derives(
            r,
            pda_of(
                associated_token_seeds(wallet@, token_program@, mint@),
                associated_token_program@,
            ),
        ),
{
    let mut seeds: Vec<Vec<u8>> = Vec::new();
    push_seed(&mut seeds, copy_bytes(wallet));
    push_seed(&mut seeds, copy_bytes(token_program));
    push_seed(&mut seeds, copy_bytes(mint));
    proof {
        assert(seeds.deep_view() =~= associated_token_seeds(wallet@, token_program@, mint@));
    }
    find_program_address(&seeds, associated_token_program)
}

/// Compares a derivation result against a claimed address and bump.
pub fn check_addr_bump(derived: &Option<(Vec<u8>, u8)>, address: &Vec<u8>, bump: u8) -> (r: bool)
    ensures
        r == (match derived {
            Option::Some(d) => d.0@ == address@ && d.1 == bump,
            Option::None => false,
        }),
{
    match derived {
        Some(d) => crate::bytes_eq(&d.0, address) && d.1 == bump,
        None => false,
    }
}

/// Compares a derivation result against a claimed address alone.
pub fn check_addr(derived: &Option<(Vec<u8>, u8)>, address: &Vec<u8>) -> (r: bool)
    ensures
        r == (match derived {
            Option::Some(d) => d.0@ == address@,
            Option::None => false,
        }),
{
    match derived {
        Some(d) => crate::bytes_eq(&d.0, address),
        None => false,
    }
}

/// Re-derives an address from its seed tuple and compares it, and its bump,
/// with what a caller supplied: the canonical-derivation check every
/// lifecycle operation performs before trusting an address.
pub fn check_derived(
    seeds: &Vec<Vec<u8>>,
    program_id: &Vec<u8>,
    address: &Vec<u8>,
    bump: u8,
) -> (r: bool)
    requires
        program_id@.len() == 32,
    ensures
        r == (pda_of(seeds.deep_view(), program_id@) == Some((address@, bump))),
{
    match find_program_address(seeds, program_id) {
        Some(found) => {
            let ok = crate::bytes_eq(&found.0, address) && found.1 == bump;
            proof {
                if ok {
                    assert(pda_of(seeds.deep_view(), program_id@) == Some((address@, bump)));
                } else {
                    assert(pda_of(seeds.deep_view(), program_id@) != Some((address@, bump)));
                }
            }
            ok
        },
        None => false,
    }
}

/// Re-deriving an address from the same seed tuple and program id always
/// yields the identical result: derivation is deterministic, so two parties
/// holding the same inputs compute the same (address, bump) pair.
pub proof fn lemma_derivation_deterministic(
    seeds: Seq<Seq<u8>>,
    program_id: Seq<u8>,
    first: Option<(Seq<u8>, u8)>,
    second: Option<(Seq<u8>, u8)>,
)
    requires
        first == pda_of(seeds, program_id),
        second == pda_of(seeds, program_id),
    ensures
        first == second,
{
}

} // verus!
