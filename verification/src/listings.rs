//! The listing lifecycle: a listing is created together with one delegated
//! sell call and destroyed together with one delegated cancel call.
//!
//! Every address a caller supplies is re-derived and compared, bump
//! included, before the ledger is touched or a call is composed; the first
//! mismatch rejects the whole operation.

use vstd::prelude::*;
use crate::calls::{DelegatedCall, DelegatedCallV, EngineRequest, EngineRequestV, SigningContext,
    SigningContextV};
use crate::errors::RewardsError;
use crate::pda::{addr_bump_matches, addr_matches, auctioneer_seeds, check_addr, check_addr_bump,
    copy_bytes, derive_auctioneer_address, derive_fee_account_address, derive_listing_address,
    derive_program_as_signer_address, derive_reward_center_address,
    derive_rewardable_collection_address, derive_trade_state_address, fee_account_seeds,
    lemma_at_most_one_canonical_bump, listing_seeds, pda_of, program_as_signer_seeds,
    reward_center_seeds, rewardable_collection_seeds, trade_state_seeds};
use crate::registry::result_view_matches;
use crate::state::{center_of, find_center, find_collection, find_listing, has_center,
    has_collection, has_listing, lemma_center_at_index, listing_key, AuctionHouse, AuctionHouseV,
    LedgerV, Listing, ListingV, ProgramContext, ProgramContextV, RewardsLedger, TokenAccount,
    TokenAccountV};

verus! {

/// Numeric fields of a new listing: the ask, the lot size, and the bumps
/// the caller claims for the derived trade-state and signer accounts.
#[derive(Clone, Copy, Debug, PartialEq, Eq, Structural)]
pub struct CreateListingParams {
    pub price: u64,
    pub token_size: u64,
    pub trade_state_bump: u8,
    pub free_trade_state_bump: u8,
    pub program_as_signer_bump: u8,
}

/// Numeric fields of a cancellation, handed through to the delegated call.
#[derive(Clone, Copy, Debug, PartialEq, Eq, Structural)]
pub struct CancelListingParams {
    pub price: u64,
    pub token_size: u64,
}

/// The account set a new listing names.
pub struct CreateListingAccounts {
    pub wallet: Vec<u8>,
    pub listing: Vec<u8>,
    pub reward_center: Vec<u8>,
    pub rewardable_collection: Vec<u8>,
    pub collection: Vec<u8>,
    pub token_account: TokenAccount,
    pub metadata: Vec<u8>,
    pub auction_house: AuctionHouse,
    pub auction_house_fee_account: Vec<u8>,
    pub seller_trade_state: Vec<u8>,
    pub free_seller_trade_state: Vec<u8>,
    pub program_as_signer: Vec<u8>,
    pub ah_auctioneer_pda: Vec<u8>,
}

/// Model of the account set.
pub struct CreateListingAccountsV {
    pub wallet: Seq<u8>,
    pub listing: Seq<u8>,
    pub reward_center: Seq<u8>,
    pub rewardable_collection: Seq<u8>,
    pub collection: Seq<u8>,
    pub token_account: TokenAccountV,
    pub metadata: Seq<u8>,
    pub auction_house: AuctionHouseV,
    pub auction_house_fee_account: Seq<u8>,
    pub seller_trade_state: Seq<u8>,
    pub free_seller_trade_state: Seq<u8>,
    pub program_as_signer: Seq<u8>,
    pub ah_auctioneer_pda: Seq<u8>,
}

impl View for CreateListingAccounts {
    type V = CreateListingAccountsV;

    open spec fn view(&self) -> CreateListingAccountsV {
        CreateListingAccountsV {
            wallet: self.wallet@,
            listing: self.listing@,
            reward_center: self.reward_center@,
            rewardable_collection: self.rewardable_collection@,
            collection: self.collection@,
            token_account: self.token_account@,
            metadata: self.metadata@,
            auction_house: self.auction_house@,
            auction_house_fee_account: self.auction_house_fee_account@,
            seller_trade_state: self.seller_trade_state@,
            free_seller_trade_state: self.free_seller_trade_state@,
            program_as_signer: self.program_as_signer@,
            ah_auctioneer_pda: self.ah_auctioneer_pda@,
        }
    }
}

/// The account set a cancellation names.
pub struct CancelListingAccounts {
    pub wallet: Vec<u8>,
    pub metadata: Vec<u8>,
    pub reward_center: Vec<u8>,
    pub rewardable_collection: Vec<u8>,
    pub token_account: TokenAccount,
    pub auction_house: AuctionHouse,
}

/// Model of the cancellation account set.
pub struct CancelListingAccountsV {
    pub wallet: Seq<u8>,
    pub metadata: Seq<u8>,
    pub reward_center: Seq<u8>,
    pub rewardable_collection: Seq<u8>,
    pub token_account: TokenAccountV,
    pub auction_house: AuctionHouseV,
}

impl View for CancelListingAccounts {
    type V = CancelListingAccountsV;

    open spec fn view(&self) -> CancelListingAccountsV {
        CancelListingAccountsV {
            wallet: self.wallet@,
            metadata: self.metadata@,
            reward_center: self.reward_center@,
            rewardable_collection: self.rewardable_collection@,
            token_account: self.token_account@,
            auction_house: self.auction_house@,
        }
    }
}

/// What creating a listing does: validates the seller's token account,
/// re-derives the reward center, the membership record, the fee account,
/// the auctioneer scope, the program-as-signer and both trade states
/// (rejecting the first mismatch with no state change and no call), then
/// records the listing and composes exactly one delegated sell call signed
/// by the reward center.
pub open spec fn spec_create_listing(
    s: LedgerV,
    ctx: ProgramContextV,
    a: CreateListingAccountsV,
    p: CreateListingParams,
) -> (LedgerV, Result<EngineRequestV, RewardsError>) {
    let ah = a.auction_house;
    if a.token_account.owner != a.wallet {
        (s, Err(RewardsError::AuthorityMismatch))
    } else if !has_center(s.reward_centers, ah.key) {
        (s, Err(RewardsError::EntityNotFound))
    } else if !addr_bump_matches(
        pda_of(reward_center_seeds(ah.key), ctx.rewards_program),
        a.reward_center,
        center_of(s.reward_centers, ah.key).bump,
    ) {
        (s, Err(RewardsError::DerivationMismatch))
    } else if !addr_matches(
        pda_of(rewardable_collection_seeds(a.reward_center, a.collection), ctx.rewards_program),
        a.rewardable_collection,
    ) {
        (s, Err(RewardsError::DerivationMismatch))
    } else if !has_collection(s.collections, a.reward_center, a.collection) {
        (s, Err(RewardsError::EntityNotFound))
    } else if !addr_bump_matches(
        pda_of(fee_account_seeds(ah.key), ctx.auction_house_program),
        a.auction_house_fee_account,
        ah.fee_payer_bump,
    ) {
        (s, Err(RewardsError::DerivationMismatch))
    } else if !addr_bump_matches(
        pda_of(auctioneer_seeds(ah.key, a.reward_center), ctx.auction_house_program),
        a.ah_auctioneer_pda,
        ah.auctioneer_pda_bump,
    ) {
        (s, Err(RewardsError::DerivationMismatch))
    } else if !addr_bump_matches(
        pda_of(program_as_signer_seeds(), ctx.auction_house_program),
        a.program_as_signer,
        p.program_as_signer_bump,
    ) {
        (s, Err(RewardsError::DerivationMismatch))
    } else if !addr_bump_matches(
        pda_of(
            trade_state_seeds(
                a.wallet,
                ah.key,
                a.token_account.key,
                ah.treasury_mint,
                a.token_account.mint,
                p.price,
                p.token_size,
            ),
            ctx.auction_house_program,
        ),
        a.seller_trade_state,
        p.trade_state_bump,
    ) {
        (s, Err(RewardsError::DerivationMismatch))
    } else if !addr_bump_matches(
        pda_of(
            trade_state_seeds(
                a.wallet,
                ah.key,
                a.token_account.key,
                ah.treasury_mint,
                a.token_account.mint,
                0,
                p.token_size,
            ),
            ctx.auction_house_program,
        ),
        a.free_seller_trade_state,
        p.free_trade_state_bump,
    ) {
        (s, Err(RewardsError::DerivationMismatch))
    } else {
        match pda_of(listing_seeds(a.wallet, a.metadata, a.rewardable_collection), ctx.rewards_program) {
            Option::None => (s, Err(RewardsError::DerivationMismatch)),
            Option::Some(rec) => {
                if rec.0 != a.listing {
                    (s, Err(RewardsError::DerivationMismatch))
                } else if has_listing(s.listings, a.wallet, a.metadata, a.rewardable_collection) {
                    (s, Err(RewardsError::DuplicateEntity))
                } else {
                    (
                        LedgerV {
                            reward_centers: s.reward_centers,
                            collections: s.collections,
                            listings: s.listings.push(
                                ListingV {
                                    wallet: a.wallet,
                                    metadata: a.metadata,
                                    rewardable_collection: a.rewardable_collection,
                                    price: p.price,
                                    token_size: p.token_size,
                                    bump: rec.1,
                                    trade_state_bump: p.trade_state_bump,
                                    free_trade_state_bump: p.free_trade_state_bump,
                                },
                            ),
                            offers: s.offers,
                        },
                        Ok(
                            EngineRequestV {
                                signer: SigningContextV {
                                    auction_house: ah.key,
                                    bump: center_of(s.reward_centers, ah.key).bump,
                                },
                                call: DelegatedCallV::Sell {
                                    wallet: a.wallet,
                                    token_account: a.token_account.key,
                                    metadata: a.metadata,
                                    seller_trade_state: a.seller_trade_state,
                                    free_seller_trade_state: a.free_seller_trade_state,
                                    program_as_signer: a.program_as_signer,
                                    price: p.price,
                                    token_size: p.token_size,
                                    trade_state_bump: p.trade_state_bump,
                                    free_trade_state_bump: p.free_trade_state_bump,
                                    program_as_signer_bump: p.program_as_signer_bump,
                                },
                            },
                        ),
                    )
                }
            },
        }
    }
}

/// Creates a listing and composes the one delegated sell call.
pub fn create_listing(
    ledger: &mut RewardsLedger,
    ctx: &ProgramContext,
    accounts: &CreateListingAccounts,
    params: CreateListingParams,
) -> (r: Result<EngineRequest, RewardsError>)
    requires
        old(ledger).wf(),
        ctx@.wf(),
    ensures
        final(ledger).wf(),
        final(ledger)@ == spec_create_listing(old(ledger)@, ctx@, accounts@, params).0,
        result_view_matches(r, spec_create_listing(old(ledger)@, ctx@, accounts@, params).1),
{
    if !crate::bytes_eq(&accounts.token_account.owner, &accounts.wallet) {
        return Err(RewardsError::AuthorityMismatch);
    }
    let center_index = match find_center(&ledger.reward_centers, &accounts.auction_house.key) {
        Some(i) => i,
        None => {
            return Err(RewardsError::EntityNotFound);
        },
    };
    let center_bump = ledger.reward_centers[center_index].bump;
    proof {
        lemma_center_at_index(
            ledger@.reward_centers,
            accounts.auction_house.key@,
            center_index as int,
        );
    }
    let derived_center = derive_reward_center_address(
        &accounts.auction_house.key,
        &ctx.rewards_program,
    );
    if !check_addr_bump(&derived_center, &accounts.reward_center, center_bump) {
        return Err(RewardsError::DerivationMismatch);
    }
    let derived_membership = derive_rewardable_collection_address(
        &accounts.reward_center,
        &accounts.collection,
        &ctx.rewards_program,
    );
    if !check_addr(&derived_membership, &accounts.rewardable_collection) {
        return Err(RewardsError::DerivationMismatch);
    }
    if find_collection(
        &ledger.collections,
        &accounts.reward_center,
        &accounts.collection,
    ).is_none() {
        return Err(RewardsError::EntityNotFound);
    }
    let derived_fee = derive_fee_account_address(
        &accounts.auction_house.key,
        &ctx.auction_house_program,
    );
    if !check_addr_bump(
        &derived_fee,
        &accounts.auction_house_fee_account,
        accounts.auction_house.fee_payer_bump,
    ) {
        return Err(RewardsError::DerivationMismatch);
    }
    let derived_scope = derive_auctioneer_address(
        &accounts.auction_house.key,
        &accounts.reward_center,
        &ctx.auction_house_program,
    );
    if !check_addr_bump(
        &derived_scope,
        &accounts.ah_auctioneer_pda,
        accounts.auction_house.auctioneer_pda_bump,
    ) {
        return Err(RewardsError::DerivationMismatch);
    }
    let derived_signer = derive_program_as_signer_address(&ctx.auction_house_program);
    if !check_addr_bump(
        &derived_signer,
        &accounts.program_as_signer,
        params.program_as_signer_bump,
    ) {
        return Err(RewardsError::DerivationMismatch);
    }
    let derived_trade_state = derive_trade_state_address(
        &accounts.wallet,
        &accounts.auction_house.key,
        &accounts.token_account.key,
        &accounts.auction_house.treasury_mint,
        &accounts.token_account.mint,
        params.price,
        params.token_size,
        &ctx.auction_house_program,
    );
    if !check_addr_bump(&derived_trade_state, &accounts.seller_trade_state, params.trade_state_bump)
        {
        return Err(RewardsError::DerivationMismatch);
    }
    let derived_free_trade_state = derive_trade_state_address(
        &accounts.wallet,
        &accounts.auction_house.key,
        &accounts.token_account.key,
        &accounts.auction_house.treasury_mint,
        &accounts.token_account.mint,
        0,
        params.token_size,
        &ctx.auction_house_program,
    );
    if !check_addr_bump(
        &derived_free_trade_state,
        &accounts.free_seller_trade_state,
        params.free_trade_state_bump,
    ) {
        return Err(RewardsError::DerivationMismatch);
    }
    let record_bump = match derive_listing_address(
        &accounts.wallet,
        &accounts.metadata,
        &accounts.rewardable_collection,
        &ctx.rewards_program,
    ) {
        Some(d) => {
            if !crate::bytes_eq(&d.0, &accounts.listing) {
                return Err(RewardsError::DerivationMismatch);
            }
            d.1
        },
        None => {
            return Err(RewardsError::DerivationMismatch);
        },
    };
    if find_listing(
        &ledger.listings,
        &accounts.wallet,
        &accounts.metadata,
        &accounts.rewardable_collection,
    ).is_some() {
        return Err(RewardsError::DuplicateEntity);
    }
    let ghost old_listings = ledger@.listings;
    ledger.listings.push(
        Listing {
            wallet: copy_bytes(&accounts.wallet),
            metadata: copy_bytes(&accounts.metadata),
            rewardable_collection: copy_bytes(&accounts.rewardable_collection),
            price: params.price,
            token_size: params.token_size,
            bump: record_bump,
            trade_state_bump: params.trade_state_bump,
            free_trade_state_bump: params.free_trade_state_bump,
        },
    );
    proof {
        assert(ledger@.listings =~= old_listings.push(
            ListingV {
                wallet: accounts.wallet@,
                metadata: accounts.metadata@,
                rewardable_collection: accounts.rewardable_collection@,
                price: params.price,
                token_size: params.token_size,
                bump: record_bump,
                trade_state_bump: params.trade_state_bump,
                free_trade_state_bump: params.free_trade_state_bump,
            },
        ));
        assert forall|i: int, j: int|
            0 <= i < j < ledger@.listings.len() implies listing_key(ledger@.listings[i])
            != listing_key(ledger@.listings[j]) by {
            if j == old_listings.len() {
                assert(!has_listing(
                    old_listings,
                    accounts.wallet@,
                    accounts.metadata@,
                    accounts.rewardable_collection@,
                ));
            }
        }
    }
    Ok(
        EngineRequest {
            signer: SigningContext {
                auction_house: copy_bytes(&accounts.auction_house.key),
                bump: center_bump,
            },
            call: DelegatedCall::Sell {
                wallet: copy_bytes(&accounts.wallet),
                token_account: copy_bytes(&accounts.token_account.key),
                metadata: copy_bytes(&accounts.metadata),
                seller_trade_state: copy_bytes(&accounts.seller_trade_state),
                free_seller_trade_state: copy_bytes(&accounts.free_seller_trade_state),
                program_as_signer: copy_bytes(&accounts.program_as_signer),
                price: params.price,
                token_size: params.token_size,
                trade_state_bump: params.trade_state_bump,
                free_trade_state_bump: params.free_trade_state_bump,
                program_as_signer_bump: params.program_as_signer_bump,
            },
        },
    )
}

/// What cancelling a listing does: re-derives the reward center and the
/// seller trade-state address (quantity one, at the open-ask sentinel
/// price), destroys the local record, and composes exactly one delegated
/// cancel call. Refunds and escrow cleanup stay with the auction engine.
pub open spec fn spec_cancel_listing(
    s: LedgerV,
    ctx: ProgramContextV,
    a: CancelListingAccountsV,
    p: CancelListingParams,
) -> (LedgerV, Result<EngineRequestV, RewardsError>) {
    let ah = a.auction_house;
    if !has_center(s.reward_centers, ah.key) {
        (s, Err(RewardsError::EntityNotFound))
    } else if !addr_bump_matches(
        pda_of(reward_center_seeds(ah.key), ctx.rewards_program),
        a.reward_center,
        center_of(s.reward_centers, ah.key).bump,
    ) {
        (s, Err(RewardsError::DerivationMismatch))
    } else if !has_listing(s.listings, a.wallet, a.metadata, a.rewardable_collection) {
        (s, Err(RewardsError::EntityNotFound))
    } else {
        match pda_of(
            trade_state_seeds(
                a.wallet,
                ah.key,
                a.token_account.key,
                ah.treasury_mint,
                a.token_account.mint,
                u64::MAX,
                1,
            ),
            ctx.auction_house_program,
        ) {
            Option::None => (s, Err(RewardsError::DerivationMismatch)),
            Option::Some(ts) => {
                let at = choose|i: int|
                    0 <= i < s.listings.len() && listing_key(s.listings[i]) == (
                        a.wallet,
                        a.metadata,
                        a.rewardable_collection,
                    );
                (
                    LedgerV {
                        reward_centers: s.reward_centers,
                        collections: s.collections,
                        listings: s.listings.remove(at),
                        offers: s.offers,
                    },
                    Ok(
                        EngineRequestV {
                            signer: SigningContextV {
                                auction_house: ah.key,
                                bump: center_of(s.reward_centers, ah.key).bump,
                            },
                            call: DelegatedCallV::Cancel {
                                wallet: a.wallet,
                                token_account: a.token_account.key,
                                trade_state: ts.0,
                                price: p.price,
                                token_size: p.token_size,
                            },
                        },
                    ),
                )
            },
        }
    }
}

/// Cancels a listing and composes the one delegated cancel call.
pub fn cancel_listing(
    ledger: &mut RewardsLedger,
    ctx: &ProgramContext,
    accounts: &CancelListingAccounts,
    params: CancelListingParams,
) -> (r: Result<EngineRequest, RewardsError>)
    requires
        old(ledger).wf(),
        ctx@.wf(),
    ensures
        final(ledger).wf(),
        final(ledger)@ == spec_cancel_listing(old(ledger)@, ctx@, accounts@, params).0,
        result_view_matches(r, spec_cancel_listing(old(ledger)@, ctx@, accounts@, params).1),
{
    let center_index = match find_center(&ledger.reward_centers, &accounts.auction_house.key) {
        Some(i) => i,
        None => {
            return Err(RewardsError::EntityNotFound);
        },
    };
    let center_bump = ledger.reward_centers[center_index].bump;
    proof {
        lemma_center_at_index(
            ledger@.reward_centers,
            accounts.auction_house.key@,
            center_index as int,
        );
    }
    let derived_center = derive_reward_center_address(
        &accounts.auction_house.key,
        &ctx.rewards_program,
    );
    if !check_addr_bump(&derived_center, &accounts.reward_center, center_bump) {
        return Err(RewardsError::DerivationMismatch);
    }
    let listing_index = match find_listing(
        &ledger.listings,
        &accounts.wallet,
        &accounts.metadata,
        &accounts.rewardable_collection,
    ) {
        Some(i) => i,
        None => {
            return Err(RewardsError::EntityNotFound);
        },
    };
    let trade_state = match derive_trade_state_address(
        &accounts.wallet,
        &accounts.auction_house.key,
        &accounts.token_account.key,
        &accounts.auction_house.treasury_mint,
        &accounts.token_account.mint,
        u64::MAX,
        1,
        &ctx.auction_house_program,
    ) {
        Some(d) => d.0,
        None => {
            return Err(RewardsError::DerivationMismatch);
        },
    };
    let ghost old_listings = ledger@.listings;
    ledger.listings.remove(listing_index);
    proof {
        let at = choose|i: int|
            0 <= i < old_listings.len() && listing_key(old_listings[i]) == (
                accounts.wallet@,
                accounts.metadata@,
                accounts.rewardable_collection@,
            );
        assert(at == listing_index) by {
            if at != listing_index {
                assert(listing_key(old_listings[at]) == listing_key(
                    old_listings[listing_index as int],
                ));
            }
        }
        assert(ledger@.listings =~= old_listings.remove(listing_index as int));
        assert forall|i: int, j: int|
            0 <= i < j < ledger@.listings.len() implies listing_key(ledger@.listings[i])
            != listing_key(ledger@.listings[j]) by {
            let remaining = ledger@.listings;
            assert(remaining[i] == if i < listing_index { old_listings[i] } else {
                old_listings[i + 1]
            });
            assert(remaining[j] == if j < listing_index { old_listings[j] } else {
                old_listings[j + 1]
            });
        }
    }
    Ok(
        EngineRequest {
            signer: SigningContext {
                auction_house: copy_bytes(&accounts.auction_house.key),
                bump: center_bump,
            },
            call: DelegatedCall::Cancel {
                wallet: copy_bytes(&accounts.wallet),
                token_account: copy_bytes(&accounts.token_account.key),
                trade_state,
                price: params.price,
                token_size: params.token_size,
            },
        },
    )
}

/// The cancellation account set consistent with a creation account set:
/// same seller, asset, collection membership, token account and auction
/// house.
pub open spec fn cancel_accounts_for(a: CreateListingAccountsV) -> CancelListingAccountsV {
    CancelListingAccountsV {
        wallet: a.wallet,
        metadata: a.metadata,
        reward_center: a.reward_center,
        rewardable_collection: a.rewardable_collection,
        token_account: a.token_account,
        auction_house: a.auction_house,
    }
}

/// The seller trade state cancellation re-derives has a canonical
/// derivation.
pub open spec fn cancel_trade_state_exists(
    ctx: ProgramContextV,
    a: CancelListingAccountsV,
) -> bool {
    pda_of(
        trade_state_seeds(
            a.wallet,
            a.auction_house.key,
            a.token_account.key,
            a.auction_house.treasury_mint,
            a.token_account.mint,
            u64::MAX,
            1,
        ),
        ctx.auction_house_program,
    ) is Some
}

/// Creating a listing and immediately cancelling it with consistent
/// accounts succeeds and restores the ledger exactly: no residual listing
/// record, and no change to any reward center, rewardable collection or
/// offer.
pub proof fn lemma_create_then_cancel_listing(
    s: LedgerV,
    ctx: ProgramContextV,
    a: CreateListingAccountsV,
    p: CreateListingParams,
    cancel_params: CancelListingParams,
)
    requires
        s.wf(),
        spec_create_listing(s, ctx, a, p).1 is Ok,
        cancel_trade_state_exists(ctx, cancel_accounts_for(a)),
    ensures
        spec_cancel_listing(
            spec_create_listing(s, ctx, a, p).0,
            ctx,
            cancel_accounts_for(a),
            cancel_params,
        ).1 is Ok,
        spec_cancel_listing(
            spec_create_listing(s, ctx, a, p).0,
            ctx,
            cancel_accounts_for(a),
            cancel_params,
        ).0 == s,
{
    let s1 = spec_create_listing(s, ctx, a, p).0;
    let key = (a.wallet, a.metadata, a.rewardable_collection);
    assert(s1.reward_centers == s.reward_centers);
    assert(listing_key(s1.listings.last()) == key);
    assert(has_listing(s1.listings, a.wallet, a.metadata, a.rewardable_collection));
    let at = choose|i: int|
        0 <= i < s1.listings.len() && listing_key(s1.listings[i]) == key;
    assert(at == s.listings.len()) by {
        if at < s.listings.len() {
            assert(listing_key(s.listings[at]) == key);
            assert(has_listing(s.listings, a.wallet, a.metadata, a.rewardable_collection));
        }
    }
    assert(s1.listings.remove(at) =~= s.listings);
    assert(spec_cancel_listing(s1, ctx, cancel_accounts_for(a), cancel_params).0 == s);
}

/// In any lifecycle operation, supplying a bump other than the canonical
/// one is rejected as a derivation mismatch before any state change and
/// before any delegated call is composed: here, for the seller trade-state
/// bump of a listing creation that would otherwise succeed.
pub proof fn lemma_noncanonical_bump_rejected(
    s: LedgerV,
    ctx: ProgramContextV,
    a: CreateListingAccountsV,
    p: CreateListingParams,
    claimed: u8,
)
    requires
        spec_create_listing(s, ctx, a, p).1 is Ok,
        claimed != p.trade_state_bump,
    ensures
        spec_create_listing(
            s,
            ctx,
            a,
            CreateListingParams {
                price: p.price,
                token_size: p.token_size,
                trade_state_bump: claimed,
                free_trade_state_bump: p.free_trade_state_bump,
                program_as_signer_bump: p.program_as_signer_bump,
            },
        ) == (s, Result::<EngineRequestV, RewardsError>::Err(RewardsError::DerivationMismatch)),
{
    let canon = pda_of(
        trade_state_seeds(
            a.wallet,
            a.auction_house.key,
            a.token_account.key,
            a.auction_house.treasury_mint,
            a.token_account.mint,
            p.price,
            p.token_size,
        ),
        ctx.auction_house_program,
    );
    lemma_at_most_one_canonical_bump(canon, a.seller_trade_state, p.trade_state_bump, claimed);
}

} // verus!
