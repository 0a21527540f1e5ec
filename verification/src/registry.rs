//! The reward center registry: creation and editing of reward centers, and
//! creation and deletion of rewardable collections.
//!
//! Registry operations never call the external auction engine; every check
//! is local, and a failed check leaves the ledger untouched.

use vstd::prelude::*;
use crate::errors::RewardsError;
use crate::pda::{
    associated_token_seeds, derive_associated_token_address, derive_reward_center_address,
    derive_rewardable_collection_address, copy_bytes, pda_of, reward_center_seeds,
    rewardable_collection_seeds,
};
use crate::state::{
    find_center, find_collection, has_center, has_collection, collection_key, opt_bytes_view,
    LedgerV, ProgramContext, ProgramContextV, RewardCenter, RewardCenterV, RewardableCollection,
    RewardableCollectionV, RewardsLedger, RewardRules, AuctionHouse, AuctionHouseV,
};

verus! {

/// What a caller asks a new reward center to be.
pub struct CreateRewardCenterParams {
    pub collection_oracle: Option<Vec<u8>>,
    pub rules: RewardRules,
}

/// Model of the creation parameters.
pub struct CreateRewardCenterParamsV {
    pub collection_oracle: Option<Seq<u8>>,
    pub rules: RewardRules,
}

impl View for CreateRewardCenterParams {
    type V = CreateRewardCenterParamsV;

    open spec fn view(&self) -> CreateRewardCenterParamsV {
        CreateRewardCenterParamsV {
            collection_oracle: opt_bytes_view(self.collection_oracle),
            rules: self.rules,
        }
    }
}

/// The replacement rules an edit applies.
#[derive(Clone, Copy, Debug, PartialEq, Eq, Structural)]
pub struct EditRewardCenterParams {
    pub rules: RewardRules,
}

/// The addresses a successful reward center creation provisions.
#[derive(Debug)]
pub struct ProvisionedRewardCenter {
    pub address: Vec<u8>,
    pub bump: u8,
    pub associated_token_account: Vec<u8>,
}

/// Model of the provisioned addresses.
pub struct ProvisionedRewardCenterV {
    pub address: Seq<u8>,
    pub bump: u8,
    pub associated_token_account: Seq<u8>,
}

impl View for ProvisionedRewardCenter {
    type V = ProvisionedRewardCenterV;

    open spec fn view(&self) -> ProvisionedRewardCenterV {
        ProvisionedRewardCenterV {
            address: self.address@,
            bump: self.bump,
            associated_token_account: self.associated_token_account@,
        }
    }
}

/// A derived address and its canonical bump, as an operation reports them.
#[derive(Debug)]
pub struct DerivedAddress {
    pub address: Vec<u8>,
    pub bump: u8,
}

/// Model of a derived address.
pub struct DerivedAddressV {
    pub address: Seq<u8>,
    pub bump: u8,
}

impl View for DerivedAddress {
    type V = DerivedAddressV;

    open spec fn view(&self) -> DerivedAddressV {
        DerivedAddressV { address: self.address@, bump: self.bump }
    }
}

/// An executable result agrees with its model: same case, and in the
/// success case the payload's model is the specified one.
pub open spec fn result_view_matches<T: View>(
    r: Result<T, RewardsError>,
    s: Result<T::V, RewardsError>,
) -> bool {
    match (r, s) {
        (Ok(a), Ok(b)) => a@ == b,
        (Err(a), Err(b)) => a == b,
        _ => false,
    }
}

/// What creating a reward center does: fails on a duplicate for the same
/// auction house, otherwise derives the center's address and its reward
/// token custody account and records the center under the canonical bump.
pub open spec fn spec_create_reward_center(
    s: LedgerV,
    ctx: ProgramContextV,
    token_mint: Seq<u8>,
    auction_house: Seq<u8>,
    params: CreateRewardCenterParamsV,
) -> (LedgerV, Result<ProvisionedRewardCenterV, RewardsError>) {
    if has_center(s.reward_centers, auction_house) {
        (s, Err(RewardsError::DuplicateEntity))
    } else {
        match pda_of(reward_center_seeds(auction_house), ctx.rewards_program) {
            Option::None => (s, Err(RewardsError::DerivationMismatch)),
            Option::Some(center) => {
                match pda_of(
                    associated_token_seeds(center.0, ctx.token_program, token_mint),
                    ctx.associated_token_program,
                ) {
                    Option::None => (s, Err(RewardsError::DerivationMismatch)),
                    Option::Some(custody) => (
                        LedgerV {
                            reward_centers: s.reward_centers.push(
                                RewardCenterV {
                                    auction_house,
                                    token_mint,
                                    collection_oracle: params.collection_oracle,
                                    rules: params.rules,
                                    bump: center.1,
                                },
                            ),
                            collections: s.collections,
                            listings: s.listings,
                            offers: s.offers,
                        },
                        Ok(
                            ProvisionedRewardCenterV {
                                address: center.0,
                                bump: center.1,
                                associated_token_account: custody.0,
                            },
                        ),
                    ),
                }
            },
        }
    }
}

/// Creates the reward center for an auction house instance: at most one per
/// auction house ever exists, since the auction house address is its sole
/// key material.
pub fn create_reward_center(
    ledger: &mut RewardsLedger,
    ctx: &ProgramContext,
    token_mint: &Vec<u8>,
    auction_house: &Vec<u8>,
    params: CreateRewardCenterParams,
) -> (r: Result<ProvisionedRewardCenter, RewardsError>)
    requires
        old(ledger).wf(),
        ctx@.wf(),
    ensures
        final(ledger).wf(),
        final(ledger)@ == spec_create_reward_center(
            old(ledger)@,
            ctx@,
            token_mint@,
            auction_house@,
            params@,
        ).0,
        result_view_matches(
            r,
            spec_create_reward_center(old(ledger)@, ctx@, token_mint@, auction_house@, params@).1,
        ),
{
    if find_center(&ledger.reward_centers, auction_house).is_some() {
        return Err(RewardsError::DuplicateEntity);
    }
    let derived = match derive_reward_center_address(auction_house, &ctx.rewards_program) {
        Some(d) => d,
        None => {
            return Err(RewardsError::DerivationMismatch);
        },
    };
    let custody = match derive_associated_token_address(
        &derived.0,
        token_mint,
        &ctx.token_program,
        &ctx.associated_token_program,
    ) {
        Some(c) => c,
        None => {
            return Err(RewardsError::DerivationMismatch);
        },
    };
    let record = RewardCenter {
        auction_house: copy_bytes(auction_house),
        token_mint: copy_bytes(token_mint),
        collection_oracle: params.collection_oracle,
        rules: params.rules,
        bump: derived.1,
    };
    let ghost old_centers = ledger@.reward_centers;
    ledger.reward_centers.push(record);
    proof {
        assert(ledger@.reward_centers =~= old_centers.push(
            RewardCenterV {
                auction_house: auction_house@,
                token_mint: token_mint@,
                collection_oracle: opt_bytes_view(params.collection_oracle),
                rules: params.rules,
                bump: derived.1,
            },
        ));
        assert forall|i: int, j: int|
            0 <= i < j < ledger@.reward_centers.len() implies ledger@.reward_centers[i].auction_house
            != ledger@.reward_centers[j].auction_house by {
            if j == old_centers.len() {
                assert(!has_center(old_centers, auction_house@));
            }
        }
    }
    Ok(
        ProvisionedRewardCenter {
            address: derived.0,
            bump: derived.1,
            associated_token_account: custody.0,
        },
    )
}

/// What editing a reward center does: gated on the auction house's
/// configured authority, and replaces the stored rules of the one center
/// keyed by that auction house, touching nothing else.
pub open spec fn spec_edit_reward_center(
    s: LedgerV,
    wallet: Seq<u8>,
    auction_house: AuctionHouseV,
    params: EditRewardCenterParams,
) -> (LedgerV, Result<(), RewardsError>) {
    if wallet != auction_house.authority {
        (s, Err(RewardsError::AuthorityMismatch))
    } else if !has_center(s.reward_centers, auction_house.key) {
        (s, Err(RewardsError::EntityNotFound))
    } else {
        (
            LedgerV {
                reward_centers: s.reward_centers.map_values(
                    |c: RewardCenterV|
                        if c.auction_house == auction_house.key {
                            RewardCenterV {
                                auction_house: c.auction_house,
                                token_mint: c.token_mint,
                                collection_oracle: c.collection_oracle,
                                rules: params.rules,
                                bump: c.bump,
                            }
                        } else {
                            c
                        },
                ),
                collections: s.collections,
                listings: s.listings,
                offers: s.offers,
            },
            Ok(()),
        )
    }
}

/// Edits the reward rules of the auction house's reward center. Only the
/// auction house's configured authority may edit; the check cross-references
/// the auction house configuration, not ownership of the center account.
pub fn edit_reward_center(
    ledger: &mut RewardsLedger,
    wallet: &Vec<u8>,
    auction_house: &AuctionHouse,
    params: EditRewardCenterParams,
) -> (r: Result<(), RewardsError>)
    requires
        old(ledger).wf(),
    ensures
        final(ledger).wf(),
        final(ledger)@ == spec_edit_reward_center(
            old(ledger)@,
            wallet@,
            auction_house@,
            params,
        ).0,
        r == spec_edit_reward_center(old(ledger)@, wallet@, auction_house@, params).1,
{
    if !crate::bytes_eq(wallet, &auction_house.authority) {
        return Err(RewardsError::AuthorityMismatch);
    }
    let index = match find_center(&ledger.reward_centers, &auction_house.key) {
        Some(i) => i,
        None => {
            return Err(RewardsError::EntityNotFound);
        },
    };
    let ghost old_centers = ledger@.reward_centers;
    let found = ledger.reward_centers.remove(index);
    let updated = RewardCenter {
        auction_house: found.auction_house,
        token_mint: found.token_mint,
        collection_oracle: found.collection_oracle,
        rules: params.rules,
        bump: found.bump,
    };
    ledger.reward_centers.insert(index, updated);
    proof {
        let expected = spec_edit_reward_center(
            old(ledger)@,
            wallet@,
            auction_house@,
            params,
        ).0.reward_centers;
        assert forall|k: int| 0 <= k < old_centers.len() implies ledger@.reward_centers[k]
            == expected[k] by {
            if k != index {
                assert(old_centers[k].auction_house != old_centers[index as int].auction_house);
            }
        }
        assert(ledger@.reward_centers =~= expected);
        assert forall|i: int, j: int|
            0 <= i < j < ledger@.reward_centers.len() implies ledger@.reward_centers[i].auction_house
            != ledger@.reward_centers[j].auction_house by {
            assert(ledger@.reward_centers[i].auction_house == old_centers[i].auction_house);
            assert(ledger@.reward_centers[j].auction_house == old_centers[j].auction_house);
        }
    }
    Ok(())
}

/// The local gates a rewardable collection operation passes before touching
/// its record: the caller is the auction house authority, the auction house
/// already has a reward center on the books, and the supplied reward center
/// address matches its canonical re-derivation.
pub open spec fn collection_gate_ok(
    s: LedgerV,
    ctx: ProgramContextV,
    wallet: Seq<u8>,
    auction_house: AuctionHouseV,
    reward_center: Seq<u8>,
) -> bool {
    wallet == auction_house.authority && has_center(s.reward_centers, auction_house.key) && match pda_of(
        reward_center_seeds(auction_house.key),
        ctx.rewards_program,
    ) {
        Option::Some(c) => c.0 == reward_center,
        Option::None => false,
    }
}

/// The error a failed gate reports: an authority mismatch outranks a
/// missing center, which outranks a derivation mismatch.
pub open spec fn collection_gate_error(
    s: LedgerV,
    ctx: ProgramContextV,
    wallet: Seq<u8>,
    auction_house: AuctionHouseV,
    reward_center: Seq<u8>,
) -> RewardsError {
    if wallet != auction_house.authority {
        RewardsError::AuthorityMismatch
    } else if !has_center(s.reward_centers, auction_house.key) {
        RewardsError::EntityNotFound
    } else {
        RewardsError::DerivationMismatch
    }
}

/// What creating a rewardable collection does: after the gates, fails on a
/// duplicate (reward center, collection) pair, otherwise derives the record
/// address and records the pair.
pub open spec fn spec_create_rewardable_collection(
    s: LedgerV,
    ctx: ProgramContextV,
    wallet: Seq<u8>,
    auction_house: AuctionHouseV,
    reward_center: Seq<u8>,
    collection: Seq<u8>,
) -> (LedgerV, Result<DerivedAddressV, RewardsError>) {
    if !collection_gate_ok(s, ctx, wallet, auction_house, reward_center) {
        (s, Err(collection_gate_error(s, ctx, wallet, auction_house, reward_center)))
    } else if has_collection(s.collections, reward_center, collection) {
        (s, Err(RewardsError::DuplicateEntity))
    } else {
        match pda_of(rewardable_collection_seeds(reward_center, collection), ctx.rewards_program) {
            Option::None => (s, Err(RewardsError::DerivationMismatch)),
            Option::Some(derived) => (
                LedgerV {
                    reward_centers: s.reward_centers,
                    collections: s.collections.push(
                        RewardableCollectionV { reward_center, collection },
                    ),
                    listings: s.listings,
                    offers: s.offers,
                },
                Ok(DerivedAddressV { address: derived.0, bump: derived.1 }),
            ),
        }
    }
}

/// Marks a collection as eligible for rewards within a reward center.
pub fn create_rewardable_collection(
    ledger: &mut RewardsLedger,
    ctx: &ProgramContext,
    wallet: &Vec<u8>,
    auction_house: &AuctionHouse,
    reward_center: &Vec<u8>,
    collection: &Vec<u8>,
) -> (r: Result<DerivedAddress, RewardsError>)
    requires
        old(ledger).wf(),
        ctx@.wf(),
    ensures
        final(ledger).wf(),
        final(ledger)@ == spec_create_rewardable_collection(
            old(ledger)@,
            ctx@,
            wallet@,
            auction_house@,
            reward_center@,
            collection@,
        ).0,
        result_view_matches(
            r,
            spec_create_rewardable_collection(
                old(ledger)@,
                ctx@,
                wallet@,
                auction_house@,
                reward_center@,
                collection@,
            ).1,
        ),
{
    if !crate::bytes_eq(wallet, &auction_house.authority) {
        return Err(RewardsError::AuthorityMismatch);
    }
    if find_center(&ledger.reward_centers, &auction_house.key).is_none() {
        return Err(RewardsError::EntityNotFound);
    }
    let center_ok = match derive_reward_center_address(&auction_house.key, &ctx.rewards_program) {
        Some(d) => crate::bytes_eq(&d.0, reward_center),
        None => false,
    };
    if !center_ok {
        return Err(RewardsError::DerivationMismatch);
    }
    if find_collection(&ledger.collections, reward_center, collection).is_some() {
        return Err(RewardsError::DuplicateEntity);
    }
    let derived = match derive_rewardable_collection_address(
        reward_center,
        collection,
        &ctx.rewards_program,
    ) {
        Some(d) => d,
        None => {
            return Err(RewardsError::DerivationMismatch);
        },
    };
    let ghost old_collections = ledger@.collections;
    ledger.collections.push(
        RewardableCollection {
            reward_center: copy_bytes(reward_center),
            collection: copy_bytes(collection),
        },
    );
    proof {
        assert(ledger@.collections =~= old_collections.push(
            RewardableCollectionV { reward_center: reward_center@, collection: collection@ },
        ));
        assert forall|i: int, j: int|
            0 <= i < j < ledger@.collections.len() implies collection_key(ledger@.collections[i])
            != collection_key(ledger@.collections[j]) by {
            if j == old_collections.len() {
                assert(!has_collection(old_collections, reward_center@, collection@));
            }
        }
    }
    Ok(DerivedAddress { address: derived.0, bump: derived.1 })
}

/// What deleting a rewardable collection does: after the gates, fails when
/// no record exists under the (reward center, collection) pair, otherwise
/// removes exactly that record.
pub open spec fn spec_delete_rewardable_collection(
    s: LedgerV,
    ctx: ProgramContextV,
    wallet: Seq<u8>,
    auction_house: AuctionHouseV,
    reward_center: Seq<u8>,
    collection: Seq<u8>,
) -> (LedgerV, Result<(), RewardsError>) {
    if !collection_gate_ok(s, ctx, wallet, auction_house, reward_center) {
        (s, Err(collection_gate_error(s, ctx, wallet, auction_house, reward_center)))
    } else if !has_collection(s.collections, reward_center, collection) {
        (s, Err(RewardsError::EntityNotFound))
    } else {
        let at = choose|i: int|
            0 <= i < s.collections.len() && collection_key(s.collections[i]) == (
                reward_center,
                collection,
            );
        (
            LedgerV {
                reward_centers: s.reward_centers,
                collections: s.collections.remove(at),
                listings: s.listings,
                offers: s.offers,
            },
            Ok(()),
        )
    }
}

/// Destroys the membership record of a collection. Fails for any caller but
/// the auction house authority: the owner of a listing has no override.
pub fn delete_rewardable_collection(
    ledger: &mut RewardsLedger,
    ctx: &ProgramContext,
    wallet: &Vec<u8>,
    auction_house: &AuctionHouse,
    reward_center: &Vec<u8>,
    collection: &Vec<u8>,
) -> (r: Result<(), RewardsError>)
    requires
        old(ledger).wf(),
        ctx@.wf(),
    ensures
        final(ledger).wf(),
        final(ledger)@ == spec_delete_rewardable_collection(
            old(ledger)@,
            ctx@,
            wallet@,
            auction_house@,
            reward_center@,
            collection@,
        ).0,
        r == spec_delete_rewardable_collection(
            old(ledger)@,
            ctx@,
            wallet@,
            auction_house@,
            reward_center@,
            collection@,
        ).1,
{
    if !crate::bytes_eq(wallet, &auction_house.authority) {
        return Err(RewardsError::AuthorityMismatch);
    }
    if find_center(&ledger.reward_centers, &auction_house.key).is_none() {
        return Err(RewardsError::EntityNotFound);
    }
    let center_ok = match derive_reward_center_address(&auction_house.key, &ctx.rewards_program) {
        Some(d) => crate::bytes_eq(&d.0, reward_center),
        None => false,
    };
    if !center_ok {
        return Err(RewardsError::DerivationMismatch);
    }
    let index = match find_collection(&ledger.collections, reward_center, collection) {
        Some(i) => i,
        None => {
            return Err(RewardsError::EntityNotFound);
        },
    };
    let ghost old_collections = ledger@.collections;
    ledger.collections.remove(index);
    proof {
        let at = choose|i: int|
            0 <= i < old_collections.len() && collection_key(old_collections[i]) == (
                reward_center@,
                collection@,
            );
        assert(at == index) by {
            if at != index {
                assert(collection_key(old_collections[at]) == collection_key(
                    old_collections[index as int],
                ));
            }
        }
        assert(ledger@.collections =~= old_collections.remove(index as int));
        assert forall|i: int, j: int|
            0 <= i < j < ledger@.collections.len() implies collection_key(ledger@.collections[i])
            != collection_key(ledger@.collections[j]) by {
            let previous = ledger@.collections;
            assert(previous[i] == if i < index { old_collections[i] } else {
                old_collections[i + 1]
            });
            assert(previous[j] == if j < index { old_collections[j] } else {
                old_collections[j + 1]
            });
        }
    }
    Ok(())
}

/// Creating a rewardable collection twice for the same (reward center,
/// collection) pair fails on the second attempt with a duplicate-entity
/// error, and the second attempt changes nothing.
pub proof fn lemma_create_collection_twice_fails(
    s: LedgerV,
    ctx: ProgramContextV,
    wallet: Seq<u8>,
    auction_house: AuctionHouseV,
    reward_center: Seq<u8>,
    collection: Seq<u8>,
)
    requires
        spec_create_rewardable_collection(
            s,
            ctx,
            wallet,
            auction_house,
            reward_center,
            collection,
        ).1 is Ok,
    ensures
        spec_create_rewardable_collection(
            spec_create_rewardable_collection(
                s,
                ctx,
                wallet,
                auction_house,
                reward_center,
                collection,
            ).0,
            ctx,
            wallet,
            auction_house,
            reward_center,
            collection,
        ) == (
            spec_create_rewardable_collection(
                s,
                ctx,
                wallet,
                auction_house,
                reward_center,
                collection,
            ).0,
            Result::<DerivedAddressV, RewardsError>::Err(RewardsError::DuplicateEntity),
        ),
{
    let created = spec_create_rewardable_collection(
        s,
        ctx,
        wallet,
        auction_house,
        reward_center,
        collection,
    ).0;
    assert(collection_key(created.collections.last()) == (reward_center, collection));
    assert(has_collection(created.collections, reward_center, collection));
}

/// Deleting a rewardable collection that does not exist fails with a
/// not-found error and changes nothing, even for the authority itself.
pub proof fn lemma_delete_missing_collection_fails(
    s: LedgerV,
    ctx: ProgramContextV,
    wallet: Seq<u8>,
    auction_house: AuctionHouseV,
    reward_center: Seq<u8>,
    collection: Seq<u8>,
)
    requires
        collection_gate_ok(s, ctx, wallet, auction_house, reward_center),
        !has_collection(s.collections, reward_center, collection),
    ensures
        spec_delete_rewardable_collection(
            s,
            ctx,
            wallet,
            auction_house,
            reward_center,
            collection,
        ) == (s, Result::<(), RewardsError>::Err(RewardsError::EntityNotFound)),
{
}

/// Creating a reward center twice against the same auction house address
/// succeeds at most once: the second attempt fails with a duplicate-entity
/// error and changes nothing.
pub proof fn lemma_create_center_twice_fails(
    s: LedgerV,
    ctx: ProgramContextV,
    token_mint: Seq<u8>,
    auction_house: Seq<u8>,
    params: CreateRewardCenterParamsV,
    second_mint: Seq<u8>,
    second_params: CreateRewardCenterParamsV,
)
    requires
        spec_create_reward_center(s, ctx, token_mint, auction_house, params).1 is Ok,
    ensures
        spec_create_reward_center(
            spec_create_reward_center(s, ctx, token_mint, auction_house, params).0,
            ctx,
            second_mint,
            auction_house,
            second_params,
        ) == (
            spec_create_reward_center(s, ctx, token_mint, auction_house, params).0,
            Result::<ProvisionedRewardCenterV, RewardsError>::Err(RewardsError::DuplicateEntity),
        ),
{
    let created = spec_create_reward_center(s, ctx, token_mint, auction_house, params).0;
    assert(created.reward_centers.last().auction_house == auction_house);
    assert(has_center(created.reward_centers, auction_house));
}

/// Editing a reward center as any wallet but the auction house's configured
/// authority fails with an authority mismatch and leaves the stored rules,
/// and everything else, unchanged.
pub proof fn lemma_edit_requires_authority(
    s: LedgerV,
    wallet: Seq<u8>,
    auction_house: AuctionHouseV,
    params: EditRewardCenterParams,
)
    requires
        wallet != auction_house.authority,
    ensures
        spec_edit_reward_center(s, wallet, auction_house, params) == (
            s,
            Result::<(), RewardsError>::Err(RewardsError::AuthorityMismatch),
        ),
{
}

} // verus!
