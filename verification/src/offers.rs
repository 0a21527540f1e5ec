//! The offer lifecycle: an offer is created together with one delegated
//! public-buy call and closed together with one delegated close call that
//! refunds unspent escrow.
//!
//! The priced trade an offer names is part of its identity: offers on the
//! same asset that differ in price derive distinct trade states and are
//! recorded, and closed, independently of each other.

use vstd::prelude::*;
use crate::calls::{DelegatedCall, DelegatedCallV, EngineRequest, EngineRequestV, SigningContext,
    SigningContextV};
use crate::errors::RewardsError;
use crate::pda::{addr_bump_matches, addr_matches, associated_token_seeds, auction_house_seeds,
    auctioneer_seeds, check_addr, check_addr_bump, copy_bytes, derive_associated_token_address,
    derive_auction_house_address, derive_auctioneer_address, derive_fee_account_address,
    derive_offer_address, derive_public_bid_trade_state_address, derive_reward_center_address,
    derive_rewardable_collection_address, fee_account_seeds, offer_seeds, pda_of,
    public_bid_trade_state_seeds, reward_center_seeds, rewardable_collection_seeds};
use crate::registry::result_view_matches;
use crate::state::{center_of, find_center, find_offer, has_center, has_offer,
    lemma_center_at_index, offer_key, AuctionHouse, AuctionHouseV, LedgerV, Offer, OfferV,
    ProgramContext, ProgramContextV, RewardsLedger, TokenAccount, TokenAccountV};

verus! {

/// What a caller asks a new offer to be: the collection the asset belongs
/// to, the bid, and the bumps claimed for the derived accounts.
pub struct CreateOfferParams {
    pub collection: Vec<u8>,
    pub trade_state_bump: u8,
    pub escrow_payment_bump: u8,
    pub buyer_price: u64,
    pub token_size: u64,
}

/// Model of the offer parameters.
pub struct CreateOfferParamsV {
    pub collection: Seq<u8>,
    pub trade_state_bump: u8,
    pub escrow_payment_bump: u8,
    pub buyer_price: u64,
    pub token_size: u64,
}

impl View for CreateOfferParams {
    type V = CreateOfferParamsV;

    open spec fn view(&self) -> CreateOfferParamsV {
        CreateOfferParamsV {
            collection: self.collection@,
            trade_state_bump: self.trade_state_bump,
            escrow_payment_bump: self.escrow_payment_bump,
            buyer_price: self.buyer_price,
            token_size: self.token_size,
        }
    }
}

/// The account set a new offer names.
pub struct CreateOffer {
    pub wallet: Vec<u8>,
    pub payment_account: Vec<u8>,
    pub transfer_authority: Vec<u8>,
    pub treasury_mint: Vec<u8>,
    pub token_account: TokenAccount,
    pub metadata: Vec<u8>,
    pub escrow_payment_account: Vec<u8>,
    pub authority: Vec<u8>,
    pub reward_center: Vec<u8>,
    pub auction_house: AuctionHouse,
    pub auction_house_fee_account: Vec<u8>,
    pub buyer_trade_state: Vec<u8>,
    pub ah_auctioneer_pda: Vec<u8>,
}

/// Model of the offer account set.
pub struct CreateOfferV {
    pub wallet: Seq<u8>,
    pub payment_account: Seq<u8>,
    pub transfer_authority: Seq<u8>,
    pub treasury_mint: Seq<u8>,
    pub token_account: TokenAccountV,
    pub metadata: Seq<u8>,
    pub escrow_payment_account: Seq<u8>,
    pub authority: Seq<u8>,
    pub reward_center: Seq<u8>,
    pub auction_house: AuctionHouseV,
    pub auction_house_fee_account: Seq<u8>,
    pub buyer_trade_state: Seq<u8>,
    pub ah_auctioneer_pda: Seq<u8>,
}

impl View for CreateOffer {
    type V = CreateOfferV;

    open spec fn view(&self) -> CreateOfferV {
        CreateOfferV {
            wallet: self.wallet@,
            payment_account: self.payment_account@,
            transfer_authority: self.transfer_authority@,
            treasury_mint: self.treasury_mint@,
            token_account: self.token_account@,
            metadata: self.metadata@,
            escrow_payment_account: self.escrow_payment_account@,
            authority: self.authority@,
            reward_center: self.reward_center@,
            auction_house: self.auction_house@,
            auction_house_fee_account: self.auction_house_fee_account@,
            buyer_trade_state: self.buyer_trade_state@,
            ah_auctioneer_pda: self.ah_auctioneer_pda@,
        }
    }
}

/// What creating an offer does: re-derives the escrow-payment account, the
/// reward center, the auction house configuration itself, the fee account,
/// the public-bid trade state and the auctioneer scope against the supplied
/// addresses and bumps, cross-checks the configured authority and treasury
/// mint, computes the membership and offer record addresses, rejects a
/// duplicate of the same priced trade, then records the offer and composes
/// exactly one delegated public-buy call signed by the reward center.
pub open spec fn spec_create_offer(
    s: LedgerV,
    ctx: ProgramContextV,
    a: CreateOfferV,
    p: CreateOfferParamsV,
) -> (LedgerV, Result<EngineRequestV, RewardsError>) {
    let ah = a.auction_house;
    if !addr_bump_matches(
        pda_of(crate::pda::escrow_payment_seeds(ah.key, a.wallet), ctx.auction_house_program),
        a.escrow_payment_account,
        p.escrow_payment_bump,
    ) {
        (s, Err(RewardsError::DerivationMismatch))
    } else if !has_center(s.reward_centers, ah.key) {
        (s, Err(RewardsError::EntityNotFound))
    } else if !addr_bump_matches(
        pda_of(reward_center_seeds(ah.key), ctx.rewards_program),
        a.reward_center,
        center_of(s.reward_centers, ah.key).bump,
    ) {
        (s, Err(RewardsError::DerivationMismatch))
    } else if !addr_bump_matches(
        pda_of(auction_house_seeds(ah.creator, ah.treasury_mint), ctx.auction_house_program),
        ah.key,
        ah.bump,
    ) {
        (s, Err(RewardsError::DerivationMismatch))
    } else if a.authority != ah.authority {
        (s, Err(RewardsError::AuthorityMismatch))
    } else if a.treasury_mint != ah.treasury_mint {
        (s, Err(RewardsError::DerivationMismatch))
    } else if !addr_bump_matches(
        pda_of(fee_account_seeds(ah.key), ctx.auction_house_program),
        a.auction_house_fee_account,
        ah.fee_payer_bump,
    ) {
        (s, Err(RewardsError::DerivationMismatch))
    } else if !addr_bump_matches(
        pda_of(
            public_bid_trade_state_seeds(
                a.wallet,
                ah.key,
                a.treasury_mint,
                a.token_account.mint,
                p.buyer_price,
                p.token_size,
            ),
            ctx.auction_house_program,
        ),
        a.buyer_trade_state,
        p.trade_state_bump,
    ) {
        (s, Err(RewardsError::DerivationMismatch))
    } else if !addr_bump_matches(
        pda_of(auctioneer_seeds(ah.key, a.reward_center), ctx.auction_house_program),
        a.ah_auctioneer_pda,
        ah.auctioneer_pda_bump,
    ) {
        (s, Err(RewardsError::DerivationMismatch))
    } else {
        match pda_of(
            rewardable_collection_seeds(a.reward_center, p.collection),
            ctx.rewards_program,
        ) {
            Option::None => (s, Err(RewardsError::DerivationMismatch)),
            Option::Some(membership) => {
                match pda_of(
                    offer_seeds(a.wallet, a.metadata, membership.0),
                    ctx.rewards_program,
                ) {
                    Option::None => (s, Err(RewardsError::DerivationMismatch)),
                    Option::Some(record) => {
                        if has_offer(
                            s.offers,
                            a.wallet,
                            a.metadata,
                            membership.0,
                            p.buyer_price,
                            p.token_size,
                        ) {
                            (s, Err(RewardsError::DuplicateEntity))
                        } else {
                            (
                                LedgerV {
                                    reward_centers: s.reward_centers,
                                    collections: s.collections,
                                    listings: s.listings,
                                    offers: s.offers.push(
                                        OfferV {
                                            wallet: a.wallet,
                                            metadata: a.metadata,
                                            rewardable_collection: membership.0,
                                            buyer_price: p.buyer_price,
                                            token_size: p.token_size,
                                            bump: record.1,
                                            trade_state_bump: p.trade_state_bump,
                                            escrow_payment_bump: p.escrow_payment_bump,
                                        },
                                    ),
                                },
                                Ok(
                                    EngineRequestV {
                                        signer: SigningContextV {
                                            auction_house: ah.key,
                                            bump: center_of(s.reward_centers, ah.key).bump,
                                        },
                                        call: DelegatedCallV::PublicBuy {
                                            wallet: a.wallet,
                                            payment_account: a.payment_account,
                                            transfer_authority: a.transfer_authority,
                                            treasury_mint: a.treasury_mint,
                                            token_account: a.token_account.key,
                                            metadata: a.metadata,
                                            escrow_payment_account: a.escrow_payment_account,
                                            buyer_trade_state: a.buyer_trade_state,
                                            trade_state_bump: p.trade_state_bump,
                                            escrow_payment_bump: p.escrow_payment_bump,
                                            buyer_price: p.buyer_price,
                                            token_size: p.token_size,
                                        },
                                    },
                                ),
                            )
                        }
                    },
                }
            },
        }
    }
}

/// Creates an offer and composes the one delegated public-buy call.
pub fn create_offer(
    ledger: &mut RewardsLedger,
    ctx: &ProgramContext,
    accounts: &CreateOffer,
    params: &CreateOfferParams,
) -> (r: Result<EngineRequest, RewardsError>)
    requires
        old(ledger).wf(),
        ctx@.wf(),
    ensures
        final(ledger).wf(),
        final(ledger)@ == spec_create_offer(old(ledger)@, ctx@, accounts@, params@).0,
        result_view_matches(r, spec_create_offer(old(ledger)@, ctx@, accounts@, params@).1),
{
    let derived_escrow = crate::pda::derive_escrow_payment_address(
        &accounts.auction_house.key,
        &accounts.wallet,
        &ctx.auction_house_program,
    );
    if !check_addr_bump(
        &derived_escrow,
        &accounts.escrow_payment_account,
        params.escrow_payment_bump,
    ) {
        return Err(RewardsError::DerivationMismatch);
    }
    let center_index = match find_center(&ledger.reward_centers, &accounts.auction_house.key) {
        Some(i) => i,
        None => {
            return Err(RewardsError::EntityNotFound);
        },
    };
    let center_bump = ledger.reward_centers[center_index].bump;
    proof {
        lemma_center_at_index(
            ledger@.reward_centers,
            accounts.auction_house.key@,
            center_index as int,
        );
    }
    let derived_center = derive_reward_center_address(
        &accounts.auction_house.key,
        &ctx.rewards_program,
    );
    if !check_addr_bump(&derived_center, &accounts.reward_center, center_bump) {
        return Err(RewardsError::DerivationMismatch);
    }
    let derived_house = derive_auction_house_address(
        &accounts.auction_house.creator,
        &accounts.auction_house.treasury_mint,
        &ctx.auction_house_program,
    );
    if !check_addr_bump(&derived_house, &accounts.auction_house.key, accounts.auction_house.bump) {
        return Err(RewardsError::DerivationMismatch);
    }
    if !crate::bytes_eq(&accounts.authority, &accounts.auction_house.authority) {
        return Err(RewardsError::AuthorityMismatch);
    }
    if !crate::bytes_eq(&accounts.treasury_mint, &accounts.auction_house.treasury_mint) {
        return Err(RewardsError::DerivationMismatch);
    }
    let derived_fee = derive_fee_account_address(
        &accounts.auction_house.key,
        &ctx.auction_house_program,
    );
    if !check_addr_bump(
        &derived_fee,
        &accounts.auction_house_fee_account,
        accounts.auction_house.fee_payer_bump,
    ) {
        return Err(RewardsError::DerivationMismatch);
    }
    let derived_trade_state = derive_public_bid_trade_state_address(
        &accounts.wallet,
        &accounts.auction_house.key,
        &accounts.treasury_mint,
        &accounts.token_account.mint,
        params.buyer_price,
        params.token_size,
        &ctx.auction_house_program,
    );
    if !check_addr_bump(&derived_trade_state, &accounts.buyer_trade_state, params.trade_state_bump)
        {
        return Err(RewardsError::DerivationMismatch);
    }
    let derived_scope = derive_auctioneer_address(
        &accounts.auction_house.key,
        &accounts.reward_center,
        &ctx.auction_house_program,
    );
    if !check_addr_bump(
        &derived_scope,
        &accounts.ah_auctioneer_pda,
        accounts.auction_house.auctioneer_pda_bump,
    ) {
        return Err(RewardsError::DerivationMismatch);
    }
    let membership = match derive_rewardable_collection_address(
        &accounts.reward_center,
        &params.collection,
        &ctx.rewards_program,
    ) {
        Some(d) => d.0,
        None => {
            return Err(RewardsError::DerivationMismatch);
        },
    };
    let record_bump = match derive_offer_address(
        &accounts.wallet,
        &accounts.metadata,
        &membership,
        &ctx.rewards_program,
    ) {
        Some(d) => d.1,
        None => {
            return Err(RewardsError::DerivationMismatch);
        },
    };
    if find_offer(
        &ledger.offers,
        &accounts.wallet,
        &accounts.metadata,
        &membership,
        params.buyer_price,
        params.token_size,
    ).is_some() {
        return Err(RewardsError::DuplicateEntity);
    }
    let ghost old_offers = ledger@.offers;
    ledger.offers.push(
        Offer {
            wallet: copy_bytes(&accounts.wallet),
            metadata: copy_bytes(&accounts.metadata),
            rewardable_collection: copy_bytes(&membership),
            buyer_price: params.buyer_price,
            token_size: params.token_size,
            bump: record_bump,
            trade_state_bump: params.trade_state_bump,
            escrow_payment_bump: params.escrow_payment_bump,
        },
    );
    proof {
        assert(ledger@.offers =~= old_offers.push(
            OfferV {
                wallet: accounts.wallet@,
                metadata: accounts.metadata@,
                rewardable_collection: membership@,
                buyer_price: params.buyer_price,
                token_size: params.token_size,
                bump: record_bump,
                trade_state_bump: params.trade_state_bump,
                escrow_payment_bump: params.escrow_payment_bump,
            },
        ));
        assert forall|i: int, j: int|
            0 <= i < j < ledger@.offers.len() implies offer_key(ledger@.offers[i]) != offer_key(
                ledger@.offers[j],
            ) by {
            if j == old_offers.len() {
                assert(!has_offer(
                    old_offers,
                    accounts.wallet@,
                    accounts.metadata@,
                    membership@,
                    params.buyer_price,
                    params.token_size,
                ));
            }
        }
    }
    Ok(
        EngineRequest {
            signer: SigningContext {
                auction_house: copy_bytes(&accounts.auction_house.key),
                bump: center_bump,
            },
            call: DelegatedCall::PublicBuy {
                wallet: copy_bytes(&accounts.wallet),
                payment_account: copy_bytes(&accounts.payment_account),
                transfer_authority: copy_bytes(&accounts.transfer_authority),
                treasury_mint: copy_bytes(&accounts.treasury_mint),
                token_account: copy_bytes(&accounts.token_account.key),
                metadata: copy_bytes(&accounts.metadata),
                escrow_payment_account: copy_bytes(&accounts.escrow_payment_account),
                buyer_trade_state: copy_bytes(&accounts.buyer_trade_state),
                trade_state_bump: params.trade_state_bump,
                escrow_payment_bump: params.escrow_payment_bump,
                buyer_price: params.buyer_price,
                token_size: params.token_size,
            },
        },
    )
}

/// Numeric fields of a close: they must match what the offer was created
/// with, since they are part of the trade-state derivation and of the local
/// record's key.
#[derive(Clone, Copy, Debug, PartialEq, Eq, Structural)]
pub struct CloseOfferParams {
    pub buyer_price: u64,
    pub escrow_payment_bump: u8,
    pub token_size: u64,
    pub trade_state_bump: u8,
}

/// The account set a close names: the public-buy set plus the receipt
/// account unspent escrow is refunded to.
pub struct CloseOfferAccounts {
    pub wallet: Vec<u8>,
    pub payment_account: Vec<u8>,
    pub transfer_authority: Vec<u8>,
    pub treasury_mint: Vec<u8>,
    pub token_account: TokenAccount,
    pub metadata: Vec<u8>,
    pub escrow_payment_account: Vec<u8>,
    pub authority: Vec<u8>,
    pub reward_center: Vec<u8>,
    pub auction_house: AuctionHouse,
    pub auction_house_fee_account: Vec<u8>,
    pub buyer_trade_state: Vec<u8>,
    pub ah_auctioneer_pda: Vec<u8>,
    pub collection: Vec<u8>,
    pub receipt_account: Vec<u8>,
}

/// Model of the close account set.
pub struct CloseOfferAccountsV {
    pub wallet: Seq<u8>,
    pub payment_account: Seq<u8>,
    pub transfer_authority: Seq<u8>,
    pub treasury_mint: Seq<u8>,
    pub token_account: TokenAccountV,
    pub metadata: Seq<u8>,
    pub escrow_payment_account: Seq<u8>,
    pub authority: Seq<u8>,
    pub reward_center: Seq<u8>,
    pub auction_house: AuctionHouseV,
    pub auction_house_fee_account: Seq<u8>,
    pub buyer_trade_state: Seq<u8>,
    pub ah_auctioneer_pda: Seq<u8>,
    pub collection: Seq<u8>,
    pub receipt_account: Seq<u8>,
}

impl View for CloseOfferAccounts {
    type V = CloseOfferAccountsV;

    open spec fn view(&self) -> CloseOfferAccountsV {
        CloseOfferAccountsV {
            wallet: self.wallet@,
            payment_account: self.payment_account@,
            transfer_authority: self.transfer_authority@,
            treasury_mint: self.treasury_mint@,
            token_account: self.token_account@,
            metadata: self.metadata@,
            escrow_payment_account: self.escrow_payment_account@,
            authority: self.authority@,
            reward_center: self.reward_center@,
            auction_house: self.auction_house@,
            auction_house_fee_account: self.auction_house_fee_account@,
            buyer_trade_state: self.buyer_trade_state@,
            ah_auctioneer_pda: self.ah_auctioneer_pda@,
            collection: self.collection@,
            receipt_account: self.receipt_account@,
        }
    }
}

/// What closing an offer does: re-derives the same escrow and trade-state
/// addresses the creation derived (a changed price or size simply derives a
/// different, nonexistent trade), checks the refund receipt is the wallet's
/// associated token account for the treasury mint, destroys exactly the one
/// local record of the priced trade, and composes one delegated close call.
/// Acceptance and withdrawal are not distinguished locally.
pub open spec fn spec_close_offer(
    s: LedgerV,
    ctx: ProgramContextV,
    a: CloseOfferAccountsV,
    p: CloseOfferParams,
) -> (LedgerV, Result<EngineRequestV, RewardsError>) {
    let ah = a.auction_house;
    if !addr_bump_matches(
        pda_of(crate::pda::escrow_payment_seeds(ah.key, a.wallet), ctx.auction_house_program),
        a.escrow_payment_account,
        p.escrow_payment_bump,
    ) {
        (s, Err(RewardsError::DerivationMismatch))
    } else if !has_center(s.reward_centers, ah.key) {
        (s, Err(RewardsError::EntityNotFound))
    } else if !addr_bump_matches(
        pda_of(reward_center_seeds(ah.key), ctx.rewards_program),
        a.reward_center,
        center_of(s.reward_centers, ah.key).bump,
    ) {
        (s, Err(RewardsError::DerivationMismatch))
    } else if a.authority != ah.authority {
        (s, Err(RewardsError::AuthorityMismatch))
    } else if a.treasury_mint != ah.treasury_mint {
        (s, Err(RewardsError::DerivationMismatch))
    } else if !addr_bump_matches(
        pda_of(fee_account_seeds(ah.key), ctx.auction_house_program),
        a.auction_house_fee_account,
        ah.fee_payer_bump,
    ) {
        (s, Err(RewardsError::DerivationMismatch))
    } else if !addr_bump_matches(
        pda_of(
            public_bid_trade_state_seeds(
                a.wallet,
                ah.key,
                a.treasury_mint,
                a.token_account.mint,
                p.buyer_price,
                p.token_size,
            ),
            ctx.auction_house_program,
        ),
        a.buyer_trade_state,
        p.trade_state_bump,
    ) {
        (s, Err(RewardsError::DerivationMismatch))
    } else if !addr_bump_matches(
        pda_of(auctioneer_seeds(ah.key, a.reward_center), ctx.auction_house_program),
        a.ah_auctioneer_pda,
        ah.auctioneer_pda_bump,
    ) {
        (s, Err(RewardsError::DerivationMismatch))
    } else if !addr_matches(
        pda_of(
            associated_token_seeds(a.wallet, ctx.token_program, a.treasury_mint),
            ctx.associated_token_program,
        ),
        a.receipt_account,
    ) {
        (s, Err(RewardsError::DerivationMismatch))
    } else {
        match pda_of(
            rewardable_collection_seeds(a.reward_center, a.collection),
            ctx.rewards_program,
        ) {
            Option::None => (s, Err(RewardsError::DerivationMismatch)),
            Option::Some(membership) => {
                if !has_offer(
                    s.offers,
                    a.wallet,
                    a.metadata,
                    membership.0,
                    p.buyer_price,
                    p.token_size,
                ) {
                    (s, Err(RewardsError::EntityNotFound))
                } else {
                    let at = choose|i: int|
                        0 <= i < s.offers.len() && offer_key(s.offers[i]) == (
                            a.wallet,
                            a.metadata,
                            membership.0,
                            p.buyer_price,
                            p.token_size,
                        );
                    (
                        LedgerV {
                            reward_centers: s.reward_centers,
                            collections: s.collections,
                            listings: s.listings,
                            offers: s.offers.remove(at),
                        },
                        Ok(
                            EngineRequestV {
                                signer: SigningContextV {
                                    auction_house: ah.key,
                                    bump: center_of(s.reward_centers, ah.key).bump,
                                },
                                call: DelegatedCallV::CloseBuy {
                                    wallet: a.wallet,
                                    payment_account: a.payment_account,
                                    transfer_authority: a.transfer_authority,
                                    treasury_mint: a.treasury_mint,
                                    token_account: a.token_account.key,
                                    metadata: a.metadata,
                                    escrow_payment_account: a.escrow_payment_account,
                                    buyer_trade_state: a.buyer_trade_state,
                                    receipt_account: a.receipt_account,
                                    trade_state_bump: p.trade_state_bump,
                                    escrow_payment_bump: p.escrow_payment_bump,
                                    buyer_price: p.buyer_price,
                                    token_size: p.token_size,
                                },
                            },
                        ),
                    )
                }
            },
        }
    }
}

/// Closes an offer and composes the one delegated close call.
pub fn close_offer(
    ledger: &mut RewardsLedger,
    ctx: &ProgramContext,
    accounts: &CloseOfferAccounts,
    params: CloseOfferParams,
) -> (r: Result<EngineRequest, RewardsError>)
    requires
        old(ledger).wf(),
        ctx@.wf(),
    ensures
        final(ledger).wf(),
        final(ledger)@ == spec_close_offer(old(ledger)@, ctx@, accounts@, params).0,
        result_view_matches(r, spec_close_offer(old(ledger)@, ctx@, accounts@, params).1),
{
    let derived_escrow = crate::pda::derive_escrow_payment_address(
        &accounts.auction_house.key,
        &accounts.wallet,
        &ctx.auction_house_program,
    );
    if !check_addr_bump(
        &derived_escrow,
        &accounts.escrow_payment_account,
        params.escrow_payment_bump,
    ) {
        return Err(RewardsError::DerivationMismatch);
    }
    let center_index = match find_center(&ledger.reward_centers, &accounts.auction_house.key) {
        Some(i) => i,
        None => {
            return Err(RewardsError::EntityNotFound);
        },
    };
    let center_bump = ledger.reward_centers[center_index].bump;
    proof {
        lemma_center_at_index(
            ledger@.reward_centers,
            accounts.auction_house.key@,
            center_index as int,
        );
    }
    let derived_center = derive_reward_center_address(
        &accounts.auction_house.key,
        &ctx.rewards_program,
    );
    if !check_addr_bump(&derived_center, &accounts.reward_center, center_bump) {
        return Err(RewardsError::DerivationMismatch);
    }
    if !crate::bytes_eq(&accounts.authority, &accounts.auction_house.authority) {
        return Err(RewardsError::AuthorityMismatch);
    }
    if !crate::bytes_eq(&accounts.treasury_mint, &accounts.auction_house.treasury_mint) {
        return Err(RewardsError::DerivationMismatch);
    }
    let derived_fee = derive_fee_account_address(
        &accounts.auction_house.key,
        &ctx.auction_house_program,
    );
    if !check_addr_bump(
        &derived_fee,
        &accounts.auction_house_fee_account,
        accounts.auction_house.fee_payer_bump,
    ) {
        return Err(RewardsError::DerivationMismatch);
    }
    let derived_trade_state = derive_public_bid_trade_state_address(
        &accounts.wallet,
        &accounts.auction_house.key,
        &accounts.treasury_mint,
        &accounts.token_account.mint,
        params.buyer_price,
        params.token_size,
        &ctx.auction_house_program,
    );
    if !check_addr_bump(&derived_trade_state, &accounts.buyer_trade_state, params.trade_state_bump)
        {
        return Err(RewardsError::DerivationMismatch);
    }
    let derived_scope = derive_auctioneer_address(
        &accounts.auction_house.key,
        &accounts.reward_center,
        &ctx.auction_house_program,
    );
    if !check_addr_bump(
        &derived_scope,
        &accounts.ah_auctioneer_pda,
        accounts.auction_house.auctioneer_pda_bump,
    ) {
        return Err(RewardsError::DerivationMismatch);
    }
    let derived_receipt = derive_associated_token_address(
        &accounts.wallet,
        &accounts.treasury_mint,
        &ctx.token_program,
        &ctx.associated_token_program,
    );
    if !check_addr(&derived_receipt, &accounts.receipt_account) {
        return Err(RewardsError::DerivationMismatch);
    }
    let membership = match derive_rewardable_collection_address(
        &accounts.reward_center,
        &accounts.collection,
        &ctx.rewards_program,
    ) {
        Some(d) => d.0,
        None => {
            return Err(RewardsError::DerivationMismatch);
        },
    };
    let offer_index = match find_offer(
        &ledger.offers,
        &accounts.wallet,
        &accounts.metadata,
        &membership,
        params.buyer_price,
        params.token_size,
    ) {
        Some(i) => i,
        None => {
            return Err(RewardsError::EntityNotFound);
        },
    };
    let ghost old_offers = ledger@.offers;
    ledger.offers.remove(offer_index);
    proof {
        let at = choose|i: int|
            0 <= i < old_offers.len() && offer_key(old_offers[i]) == (
                accounts.wallet@,
                accounts.metadata@,
                membership@,
                params.buyer_price,
                params.token_size,
            );
        assert(at == offer_index) by {
            if at != offer_index {
                assert(offer_key(old_offers[at]) == offer_key(old_offers[offer_index as int]));
            }
        }
        assert(ledger@.offers =~= old_offers.remove(offer_index as int));
        assert forall|i: int, j: int|
            0 <= i < j < ledger@.offers.len() implies offer_key(ledger@.offers[i]) != offer_key(
                ledger@.offers[j],
            ) by {
            let remaining = ledger@.offers;
            assert(remaining[i] == if i < offer_index { old_offers[i] } else {
                old_offers[i + 1]
            });
            assert(remaining[j] == if j < offer_index { old_offers[j] } else {
                old_offers[j + 1]
            });
        }
    }
    Ok(
        EngineRequest {
            signer: SigningContext {
                auction_house: copy_bytes(&accounts.auction_house.key),
                bump: center_bump,
            },
            call: DelegatedCall::CloseBuy {
                wallet: copy_bytes(&accounts.wallet),
                payment_account: copy_bytes(&accounts.payment_account),
                transfer_authority: copy_bytes(&accounts.transfer_authority),
                treasury_mint: copy_bytes(&accounts.treasury_mint),
                token_account: copy_bytes(&accounts.token_account.key),
                metadata: copy_bytes(&accounts.metadata),
                escrow_payment_account: copy_bytes(&accounts.escrow_payment_account),
                buyer_trade_state: copy_bytes(&accounts.buyer_trade_state),
                receipt_account: copy_bytes(&accounts.receipt_account),
                trade_state_bump: params.trade_state_bump,
                escrow_payment_bump: params.escrow_payment_bump,
                buyer_price: params.buyer_price,
                token_size: params.token_size,
            },
        },
    )
}

/// The close account set consistent with a creation account set: same
/// buyer, asset, collection and auction house, refunding to this receipt.
pub open spec fn close_accounts_for(
    a: CreateOfferV,
    collection: Seq<u8>,
    receipt: Seq<u8>,
) -> CloseOfferAccountsV {
    CloseOfferAccountsV {
        wallet: a.wallet,
        payment_account: a.payment_account,
        transfer_authority: a.transfer_authority,
        treasury_mint: a.treasury_mint,
        token_account: a.token_account,
        metadata: a.metadata,
        escrow_payment_account: a.escrow_payment_account,
        authority: a.authority,
        reward_center: a.reward_center,
        auction_house: a.auction_house,
        auction_house_fee_account: a.auction_house_fee_account,
        buyer_trade_state: a.buyer_trade_state,
        ah_auctioneer_pda: a.ah_auctioneer_pda,
        collection,
        receipt_account: receipt,
    }
}

/// The close parameters matching a creation: same priced trade, same bumps.
pub open spec fn close_params_for(p: CreateOfferParamsV) -> CloseOfferParams {
    CloseOfferParams {
        buyer_price: p.buyer_price,
        escrow_payment_bump: p.escrow_payment_bump,
        token_size: p.token_size,
        trade_state_bump: p.trade_state_bump,
    }
}

/// The refund receipt names the wallet's associated token account for the
/// treasury mint.
pub open spec fn close_receipt_ok(ctx: ProgramContextV, a: CloseOfferAccountsV) -> bool {
    addr_matches(
        pda_of(
            associated_token_seeds(a.wallet, ctx.token_program, a.treasury_mint),
            ctx.associated_token_program,
        ),
        a.receipt_account,
    )
}

/// Offers by the same wallet on the same asset at two distinct prices
/// coexist: if each creation would succeed on its own, they also succeed in
/// sequence, and the two records are distinct, since the priced trade is
/// part of an offer's identity.
pub proof fn lemma_offers_at_distinct_prices_coexist(
    s: LedgerV,
    ctx: ProgramContextV,
    a: CreateOfferV,
    p1: CreateOfferParamsV,
    p2: CreateOfferParamsV,
)
    requires
        spec_create_offer(s, ctx, a, p1).1 is Ok,
        spec_create_offer(s, ctx, a, p2).1 is Ok,
        p1.collection == p2.collection,
        p1.buyer_price != p2.buyer_price,
    ensures
        spec_create_offer(spec_create_offer(s, ctx, a, p1).0, ctx, a, p2).1 is Ok,
        spec_create_offer(spec_create_offer(s, ctx, a, p1).0, ctx, a, p2).0.offers.len()
            == s.offers.len() + 2,
        offer_key(spec_create_offer(s, ctx, a, p1).0.offers.last()) != offer_key(
            spec_create_offer(spec_create_offer(s, ctx, a, p1).0, ctx, a, p2).0.offers.last(),
        ),
{
    let s1 = spec_create_offer(s, ctx, a, p1).0;
    assert(s1.reward_centers == s.reward_centers);
    let membership = pda_of(
        rewardable_collection_seeds(a.reward_center, p2.collection),
        ctx.rewards_program,
    );
    assert(membership is Some);
    let membership_addr = (membership->0).0;
    let key2 = (a.wallet, a.metadata, membership_addr, p2.buyer_price, p2.token_size);
    assert(!has_offer(
        s1.offers,
        a.wallet,
        a.metadata,
        membership_addr,
        p2.buyer_price,
        p2.token_size,
    )) by {
        if has_offer(
            s1.offers,
            a.wallet,
            a.metadata,
            membership_addr,
            p2.buyer_price,
            p2.token_size,
        ) {
            let i = choose|i: int| 0 <= i < s1.offers.len() && offer_key(s1.offers[i]) == key2;
            if i < s.offers.len() {
                assert(offer_key(s.offers[i]) == key2);
                assert(has_offer(
                    s.offers,
                    a.wallet,
                    a.metadata,
                    membership_addr,
                    p2.buyer_price,
                    p2.token_size,
                ));
            } else {
                assert(s1.offers[i] == s1.offers.last());
                assert(s1.offers.last().buyer_price == p1.buyer_price);
            }
        }
    }
}

/// Two coexisting offers at distinct prices are independently closable:
/// closing the first destroys exactly its own record and composes its own
/// delegated close call, leaving the second offer's record on the books.
pub proof fn lemma_close_first_offer_leaves_second(
    s: LedgerV,
    ctx: ProgramContextV,
    a: CreateOfferV,
    p1: CreateOfferParamsV,
    p2: CreateOfferParamsV,
    receipt: Seq<u8>,
)
    requires
        spec_create_offer(s, ctx, a, p1).1 is Ok,
        spec_create_offer(s, ctx, a, p2).1 is Ok,
        p1.collection == p2.collection,
        p1.buyer_price != p2.buyer_price,
        close_receipt_ok(ctx, close_accounts_for(a, p1.collection, receipt)),
    ensures
        spec_close_offer(
            spec_create_offer(spec_create_offer(s, ctx, a, p1).0, ctx, a, p2).0,
            ctx,
            close_accounts_for(a, p1.collection, receipt),
            close_params_for(p1),
        ).1 is Ok,
        spec_close_offer(
            spec_create_offer(spec_create_offer(s, ctx, a, p1).0, ctx, a, p2).0,
            ctx,
            close_accounts_for(a, p1.collection, receipt),
            close_params_for(p1),
        ).0.offers == s.offers.push(
            spec_create_offer(spec_create_offer(s, ctx, a, p1).0, ctx, a, p2).0.offers.last(),
        ),
{
    lemma_offers_at_distinct_prices_coexist(s, ctx, a, p1, p2);
    let s1 = spec_create_offer(s, ctx, a, p1).0;
    let s2 = spec_create_offer(s1, ctx, a, p2).0;
    let membership = pda_of(
        rewardable_collection_seeds(a.reward_center, p1.collection),
        ctx.rewards_program,
    );
    assert(membership is Some);
    let membership_addr = (membership->0).0;
    let key1 = (a.wallet, a.metadata, membership_addr, p1.buyer_price, p1.token_size);
    let first = s1.offers.last();
    let second = s2.offers.last();
    assert(s2.reward_centers == s.reward_centers);
    assert(s2.offers == s.offers.push(first).push(second));
    assert(offer_key(first) == key1);
    let n: int = s.offers.len() as int;
    assert(s2.offers[n] == first);
    assert(has_offer(
        s2.offers,
        a.wallet,
        a.metadata,
        membership_addr,
        p1.buyer_price,
        p1.token_size,
    ));
    let at = choose|i: int| 0 <= i < s2.offers.len() && offer_key(s2.offers[i]) == key1;
    assert(at == n) by {
        if at < n {
            assert(offer_key(s.offers[at]) == key1);
            assert(has_offer(
                s.offers,
                a.wallet,
                a.metadata,
                membership_addr,
                p1.buyer_price,
                p1.token_size,
            ));
        } else if at == n + 1 {
            assert(offer_key(second).3 == p2.buyer_price);
        }
    }
    assert(s2.offers.remove(n) =~= s.offers.push(second));
}


/// In the offer lifecycle too, a bump other than the canonical one is
/// rejected as a derivation mismatch before any state change and before any
/// delegated call is composed: here, for the escrow-payment bump of an
/// offer creation that would otherwise succeed.
pub proof fn lemma_noncanonical_escrow_bump_rejected(
    s: LedgerV,
    ctx: ProgramContextV,
    a: CreateOfferV,
    p: CreateOfferParamsV,
    claimed: u8,
)
    requires
        spec_create_offer(s, ctx, a, p).1 is Ok,
        claimed != p.escrow_payment_bump,
    ensures
        spec_create_offer(
            s,
            ctx,
            a,
            CreateOfferParamsV {
                collection: p.collection,
                trade_state_bump: p.trade_state_bump,
                escrow_payment_bump: claimed,
                buyer_price: p.buyer_price,
                token_size: p.token_size,
            },
        ) == (s, Result::<EngineRequestV, RewardsError>::Err(RewardsError::DerivationMismatch)),
{
    let canon = pda_of(
        crate::pda::escrow_payment_seeds(a.auction_house.key, a.wallet),
        ctx.auction_house_program,
    );
    crate::pda::lemma_at_most_one_canonical_bump(
        canon,
        a.escrow_payment_account,
        p.escrow_payment_bump,
        claimed,
    );
}

} // verus!
