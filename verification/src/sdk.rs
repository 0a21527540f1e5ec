//! Client-side instruction builders: each computes the full account set of
//! one operation from the caller's key material, so any client can derive
//! every address of an instruction before submitting it. The wire encoding
//! of an instruction is the runtime's concern, not this module's.

use vstd::prelude::*;
use crate::pda::{addr_matches, auctioneer_seeds, associated_token_seeds,
    derive_associated_token_address, derive_auctioneer_address, derive_escrow_payment_address,
    derive_fee_account_address, derive_offer_address, derive_program_as_signer_address,
    derive_public_bid_trade_state_address, derive_reward_center_address,
    derive_rewardable_collection_address, derive_trade_state_address, copy_bytes,
    escrow_payment_seeds, fee_account_seeds, offer_seeds, pda_of, program_as_signer_seeds,
    public_bid_trade_state_seeds, reward_center_seeds, rewardable_collection_seeds,
    trade_state_seeds};
use crate::listings::{CancelListingParams, CreateListingParams};
use crate::registry::{CreateRewardCenterParams, EditRewardCenterParams};
use crate::state::{ProgramContext, ProgramContextV};

verus! {

/// The instruction creating a reward center.
pub struct CreateRewardCenterInstruction {
    pub program_id: Vec<u8>,
    pub wallet: Vec<u8>,
    pub mint: Vec<u8>,
    pub auction_house: Vec<u8>,
    pub reward_center: Vec<u8>,
    pub associated_token_account: Vec<u8>,
    pub token_program: Vec<u8>,
    pub associated_token_program: Vec<u8>,
    pub params: CreateRewardCenterParams,
}

/// Builds the reward center creation instruction, deriving the center's
/// address from the auction house and the custody account from the center
/// and the reward mint.
pub fn create_reward_center(
    wallet: &Vec<u8>,
    mint: &Vec<u8>,
    auction_house: &Vec<u8>,
    ctx: &ProgramContext,
    params: CreateRewardCenterParams,
) -> (r: Option<CreateRewardCenterInstruction>)
    requires
        ctx@.wf(),
    ensures
        (r is None) == (match pda_of(reward_center_seeds(auction_house@), ctx@.rewards_program) {
            Option::None => true,
            Option::Some(center) => pda_of(
                associated_token_seeds(center.0, ctx@.token_program, mint@),
                ctx@.associated_token_program,
            ) is None,
        }),
        r matches Some(ix) ==> {
            &&& ix.program_id@ == ctx@.rewards_program
            &&& ix.wallet@ == wallet@
            &&& ix.mint@ == mint@
            &&& ix.auction_house@ == auction_house@
            &&& addr_matches(
                pda_of(reward_center_seeds(auction_house@), ctx@.rewards_program),
                ix.reward_center@,
            )
            &&& addr_matches(
                pda_of(
                    associated_token_seeds(ix.reward_center@, ctx@.token_program, mint@),
                    ctx@.associated_token_program,
                ),
                ix.associated_token_account@,
            )
            &&& ix.token_program@ == ctx@.token_program
            &&& ix.associated_token_program@ == ctx@.associated_token_program
            &&& ix.params == params
        },
{
    let reward_center = match derive_reward_center_address(auction_house, &ctx.rewards_program) {
        Some(d) => d.0,
        None => {
            return None;
        },
    };
    let associated_token_account = match derive_associated_token_address(
        &reward_center,
        mint,
        &ctx.token_program,
        &ctx.associated_token_program,
    ) {
        Some(d) => d.0,
        None => {
            return None;
        },
    };
    Some(
        CreateRewardCenterInstruction {
            program_id: copy_bytes(&ctx.rewards_program),
            wallet: copy_bytes(wallet),
            mint: copy_bytes(mint),
            auction_house: copy_bytes(auction_house),
            reward_center,
            associated_token_account,
            token_program: copy_bytes(&ctx.token_program),
            associated_token_program: copy_bytes(&ctx.associated_token_program),
            params,
        },
    )
}

/// The instruction editing a reward center's rules.
pub struct EditRewardCenterInstruction {
    pub program_id: Vec<u8>,
    pub wallet: Vec<u8>,
    pub auction_house: Vec<u8>,
    pub reward_center: Vec<u8>,
    pub params: EditRewardCenterParams,
}

/// Builds the reward center edit instruction.
pub fn edit_reward_center(
    wallet: &Vec<u8>,
    auction_house: &Vec<u8>,
    ctx: &ProgramContext,
    params: EditRewardCenterParams,
) -> (r: Option<EditRewardCenterInstruction>)
    requires
        ctx@.wf(),
    ensures
        (r is None) == (pda_of(reward_center_seeds(auction_house@), ctx@.rewards_program)
            is None),
        r matches Some(ix) ==> {
            &&& ix.program_id@ == ctx@.rewards_program
            &&& ix.wallet@ == wallet@
            &&& ix.auction_house@ == auction_house@
            &&& addr_matches(
                pda_of(reward_center_seeds(auction_house@), ctx@.rewards_program),
                ix.reward_center@,
            )
            &&& ix.params == params
        },
{
    let reward_center = match derive_reward_center_address(auction_house, &ctx.rewards_program) {
        Some(d) => d.0,
        None => {
            return None;
        },
    };
    Some(
        EditRewardCenterInstruction {
            program_id: copy_bytes(&ctx.rewards_program),
            wallet: copy_bytes(wallet),
            auction_house: copy_bytes(auction_house),
            reward_center,
            params,
        },
    )
}

/// The instruction creating a rewardable collection.
pub struct CreateRewardableCollectionInstruction {
    pub program_id: Vec<u8>,
    pub wallet: Vec<u8>,
    pub reward_center: Vec<u8>,
    pub rewardable_collection: Vec<u8>,
    pub auction_house: Vec<u8>,
    pub collection: Vec<u8>,
}

/// Builds the rewardable collection creation instruction, deriving the
/// membership record's address from the (reward center, collection) pair.
pub fn create_rewardable_collection(
    wallet: &Vec<u8>,
    auction_house: &Vec<u8>,
    reward_center: &Vec<u8>,
    collection: &Vec<u8>,
    ctx: &ProgramContext,
) -> (r: Option<CreateRewardableCollectionInstruction>)
    requires
        ctx@.wf(),
    ensures
        (r is None) == (pda_of(
            rewardable_collection_seeds(reward_center@, collection@),
            ctx@.rewards_program,
        ) is None),
        r matches Some(ix) ==> {
            &&& ix.program_id@ == ctx@.rewards_program
            &&& ix.wallet@ == wallet@
            &&& ix.auction_house@ == auction_house@
            &&& ix.reward_center@ == reward_center@
            &&& ix.collection@ == collection@
            &&& addr_matches(
                pda_of(
                    rewardable_collection_seeds(reward_center@, collection@),
                    ctx@.rewards_program,
                ),
                ix.rewardable_collection@,
            )
        },
{
    let rewardable_collection = match derive_rewardable_collection_address(
        reward_center,
        collection,
        &ctx.rewards_program,
    ) {
        Some(d) => d.0,
        None => {
            return None;
        },
    };
    Some(
        CreateRewardableCollectionInstruction {
            program_id: copy_bytes(&ctx.rewards_program),
            wallet: copy_bytes(wallet),
            reward_center: copy_bytes(reward_center),
            rewardable_collection,
            auction_house: copy_bytes(auction_house),
            collection: copy_bytes(collection),
        },
    )
}

/// The instruction deleting a rewardable collection.
pub struct DeleteRewardableCollectionInstruction {
    pub program_id: Vec<u8>,
    pub wallet: Vec<u8>,
    pub reward_center: Vec<u8>,
    pub rewardable_collection: Vec<u8>,
    pub auction_house: Vec<u8>,
    pub collection: Vec<u8>,
}

/// Builds the rewardable collection deletion instruction.
pub fn delete_rewardable_collection(
    wallet: &Vec<u8>,
    auction_house: &Vec<u8>,
    reward_center: &Vec<u8>,
    collection: &Vec<u8>,
    ctx: &ProgramContext,
) -> (r: Option<DeleteRewardableCollectionInstruction>)
    requires
        ctx@.wf(),
    ensures
        (r is None) == (pda_of(
            rewardable_collection_seeds(reward_center@, collection@),
            ctx@.rewards_program,
        ) is None),
        r matches Some(ix) ==> {
            &&& ix.program_id@ == ctx@.rewards_program
            &&& ix.wallet@ == wallet@
            &&& ix.auction_house@ == auction_house@
            &&& ix.reward_center@ == reward_center@
            &&& ix.collection@ == collection@
            &&& addr_matches(
                pda_of(
                    rewardable_collection_seeds(reward_center@, collection@),
                    ctx@.rewards_program,
                ),
                ix.rewardable_collection@,
            )
        },
{
    let rewardable_collection = match derive_rewardable_collection_address(
        reward_center,
        collection,
        &ctx.rewards_program,
    ) {
        Some(d) => d.0,
        None => {
            return None;
        },
    };
    Some(
        DeleteRewardableCollectionInstruction {
            program_id: copy_bytes(&ctx.rewards_program),
            wallet: copy_bytes(wallet),
            reward_center: copy_bytes(reward_center),
            rewardable_collection,
            auction_house: copy_bytes(auction_house),
            collection: copy_bytes(collection),
        },
    )
}

/// The instruction creating a listing.
pub struct CreateListingInstruction {
    pub program_id: Vec<u8>,
    pub auction_house_program: Vec<u8>,
    pub listing: Vec<u8>,
    pub reward_center: Vec<u8>,
    pub rewardable_collection: Vec<u8>,
    pub wallet: Vec<u8>,
    pub token_account: Vec<u8>,
    pub metadata: Vec<u8>,
    pub authority: Vec<u8>,
    pub auction_house: Vec<u8>,
    pub auction_house_fee_account: Vec<u8>,
    pub seller_trade_state: Vec<u8>,
    pub free_seller_trade_state: Vec<u8>,
    pub ah_auctioneer_pda: Vec<u8>,
    pub program_as_signer: Vec<u8>,
    pub params: CreateListingParams,
}

/// Builds the listing creation instruction, deriving the fee account, the
/// auctioneer scope and the program-as-signer account, whose canonical bump
/// is carried in the parameters.
pub fn create_listing(
    wallet: &Vec<u8>,
    listing: &Vec<u8>,
    reward_center: &Vec<u8>,
    rewardable_collection: &Vec<u8>,
    token_account: &Vec<u8>,
    metadata: &Vec<u8>,
    authority: &Vec<u8>,
    auction_house: &Vec<u8>,
    seller_trade_state: &Vec<u8>,
    free_seller_trade_state: &Vec<u8>,
    price: u64,
    token_size: u64,
    trade_state_bump: u8,
    free_trade_state_bump: u8,
    ctx: &ProgramContext,
) -> (r: Option<CreateListingInstruction>)
    requires
        ctx@.wf(),
    ensures
        (r is None) == (pda_of(fee_account_seeds(auction_house@), ctx@.auction_house_program)
            is None || pda_of(
            auctioneer_seeds(auction_house@, reward_center@),
            ctx@.auction_house_program,
        ) is None || pda_of(program_as_signer_seeds(), ctx@.auction_house_program) is None),
        r matches Some(ix) ==> {
            &&& ix.program_id@ == ctx@.rewards_program
            &&& ix.auction_house_program@ == ctx@.auction_house_program
            &&& ix.listing@ == listing@
            &&& ix.reward_center@ == reward_center@
            &&& ix.rewardable_collection@ == rewardable_collection@
            &&& ix.wallet@ == wallet@
            &&& ix.token_account@ == token_account@
            &&& ix.metadata@ == metadata@
            &&& ix.authority@ == authority@
            &&& ix.auction_house@ == auction_house@
            &&& addr_matches(
                pda_of(fee_account_seeds(auction_house@), ctx@.auction_house_program),
                ix.auction_house_fee_account@,
            )
            &&& addr_matches(
                pda_of(
                    auctioneer_seeds(auction_house@, reward_center@),
                    ctx@.auction_house_program,
                ),
                ix.ah_auctioneer_pda@,
            )
            &&& pda_of(program_as_signer_seeds(), ctx@.auction_house_program) == Some(
                (ix.program_as_signer@, ix.params.program_as_signer_bump),
            )
            &&& ix.seller_trade_state@ == seller_trade_state@
            &&& ix.free_seller_trade_state@ == free_seller_trade_state@
            &&& ix.params.price == price
            &&& ix.params.token_size == token_size
            &&& ix.params.trade_state_bump == trade_state_bump
            &&& ix.params.free_trade_state_bump == free_trade_state_bump
        },
{
    let fee = match derive_fee_account_address(auction_house, &ctx.auction_house_program) {
        Some(d) => d.0,
        None => {
            return None;
        },
    };
    let scope = match derive_auctioneer_address(
        auction_house,
        reward_center,
        &ctx.auction_house_program,
    ) {
        Some(d) => d.0,
        None => {
            return None;
        },
    };
    let signer = match derive_program_as_signer_address(&ctx.auction_house_program) {
        Some(d) => d,
        None => {
            return None;
        },
    };
    Some(
        CreateListingInstruction {
            program_id: copy_bytes(&ctx.rewards_program),
            auction_house_program: copy_bytes(&ctx.auction_house_program),
            listing: copy_bytes(listing),
            reward_center: copy_bytes(reward_center),
            rewardable_collection: copy_bytes(rewardable_collection),
            wallet: copy_bytes(wallet),
            token_account: copy_bytes(token_account),
            metadata: copy_bytes(metadata),
            authority: copy_bytes(authority),
            auction_house: copy_bytes(auction_house),
            auction_house_fee_account: fee,
            seller_trade_state: copy_bytes(seller_trade_state),
            free_seller_trade_state: copy_bytes(free_seller_trade_state),
            ah_auctioneer_pda: scope,
            program_as_signer: signer.0,
            params: CreateListingParams {
                price,
                token_size,
                trade_state_bump,
                free_trade_state_bump,
                program_as_signer_bump: signer.1,
            },
        },
    )
}

/// The instruction cancelling a listing.
pub struct CancelListingInstruction {
    pub program_id: Vec<u8>,
    pub auction_house_program: Vec<u8>,
    pub ah_auctioneer_pda: Vec<u8>,
    pub auction_house: Vec<u8>,
    pub auction_house_fee_account: Vec<u8>,
    pub authority: Vec<u8>,
    pub listing: Vec<u8>,
    pub metadata: Vec<u8>,
    pub reward_center: Vec<u8>,
    pub rewardable_collection: Vec<u8>,
    pub token_account: Vec<u8>,
    pub token_mint: Vec<u8>,
    pub trade_state: Vec<u8>,
    pub wallet: Vec<u8>,
    pub params: CancelListingParams,
}

/// Builds the listing cancellation instruction, re-deriving the seller
/// trade state for a single token at the open-ask sentinel price.
pub fn cancel_listing(
    wallet: &Vec<u8>,
    listing: &Vec<u8>,
    reward_center: &Vec<u8>,
    rewardable_collection: &Vec<u8>,
    token_account: &Vec<u8>,
    token_mint: &Vec<u8>,
    treasury_mint: &Vec<u8>,
    metadata: &Vec<u8>,
    authority: &Vec<u8>,
    auction_house: &Vec<u8>,
    price: u64,
    token_size: u64,
    ctx: &ProgramContext,
) -> (r: Option<CancelListingInstruction>)
    requires
        ctx@.wf(),
    ensures
        (r is None) == (pda_of(fee_account_seeds(auction_house@), ctx@.auction_house_program)
            is None || pda_of(
            auctioneer_seeds(auction_house@, reward_center@),
            ctx@.auction_house_program,
        ) is None || pda_of(
            trade_state_seeds(
                wallet@,
                auction_house@,
                token_account@,
                treasury_mint@,
                token_mint@,
                u64::MAX,
                1,
            ),
            ctx@.auction_house_program,
        ) is None),
        r matches Some(ix) ==> {
            &&& ix.program_id@ == ctx@.rewards_program
            &&& ix.auction_house_program@ == ctx@.auction_house_program
            &&& ix.listing@ == listing@
            &&& ix.reward_center@ == reward_center@
            &&& ix.rewardable_collection@ == rewardable_collection@
            &&& ix.wallet@ == wallet@
            &&& ix.token_account@ == token_account@
            &&& ix.token_mint@ == token_mint@
            &&& ix.metadata@ == metadata@
            &&& ix.authority@ == authority@
            &&& ix.auction_house@ == auction_house@
            &&& addr_matches(
                pda_of(fee_account_seeds(auction_house@), ctx@.auction_house_program),
                ix.auction_house_fee_account@,
            )
            &&& addr_matches(
                pda_of(
                    auctioneer_seeds(auction_house@, reward_center@),
                    ctx@.auction_house_program,
                ),
                ix.ah_auctioneer_pda@,
            )
            &&& addr_matches(
                pda_of(
                    trade_state_seeds(
                        wallet@,
                        auction_house@,
                        token_account@,
                        treasury_mint@,
                        token_mint@,
                        u64::MAX,
                        1,
                    ),
                    ctx@.auction_house_program,
                ),
                ix.trade_state@,
            )
            &&& ix.params.price == price
            &&& ix.params.token_size == token_size
        },
{
    let fee = match derive_fee_account_address(auction_house, &ctx.auction_house_program) {
        Some(d) => d.0,
        None => {
            return None;
        },
    };
    let scope = match derive_auctioneer_address(
        auction_house,
        reward_center,
        &ctx.auction_house_program,
    ) {
        Some(d) => d.0,
        None => {
            return None;
        },
    };
    let trade_state = match derive_trade_state_address(
        wallet,
        auction_house,
        token_account,
        treasury_mint,
        token_mint,
        u64::MAX,
        1,
        &ctx.auction_house_program,
    ) {
        Some(d) => d.0,
        None => {
            return None;
        },
    };
    Some(
        CancelListingInstruction {
            program_id: copy_bytes(&ctx.rewards_program),
            auction_house_program: copy_bytes(&ctx.auction_house_program),
            ah_auctioneer_pda: scope,
            auction_house: copy_bytes(auction_house),
            auction_house_fee_account: fee,
            authority: copy_bytes(authority),
            listing: copy_bytes(listing),
            metadata: copy_bytes(metadata),
            reward_center: copy_bytes(reward_center),
            rewardable_collection: copy_bytes(rewardable_collection),
            token_account: copy_bytes(token_account),
            token_mint: copy_bytes(token_mint),
            trade_state,
            wallet: copy_bytes(wallet),
            params: CancelListingParams { price, token_size },
        },
    )
}

/// The instruction creating an offer.
pub struct CreateOfferInstruction {
    pub program_id: Vec<u8>,
    pub auction_house_program: Vec<u8>,
    pub ah_auctioneer_pda: Vec<u8>,
    pub auction_house: Vec<u8>,
    pub auction_house_fee_account: Vec<u8>,
    pub authority: Vec<u8>,
    pub buyer_trade_state: Vec<u8>,
    pub metadata: Vec<u8>,
    pub payment_account: Vec<u8>,
    pub reward_center: Vec<u8>,
    pub token_account: Vec<u8>,
    pub transfer_authority: Vec<u8>,
    pub treasury_mint: Vec<u8>,
    pub escrow_payment_account: Vec<u8>,
    pub wallet: Vec<u8>,
    pub rewardable_collection: Vec<u8>,
    pub offer: Vec<u8>,
    pub buyer_price: u64,
    pub token_size: u64,
    pub trade_state_bump: u8,
    pub escrow_payment_bump: u8,
}

/// Builds the offer creation instruction, deriving the fee account, the
/// auctioneer scope, the escrow-payment account, the public-bid trade state
/// and the offer record, with the canonical bumps of the escrow and trade
/// state carried along for reuse at close.
pub fn create_offer(
    wallet: &Vec<u8>,
    payment_account: &Vec<u8>,
    transfer_authority: &Vec<u8>,
    treasury_mint: &Vec<u8>,
    token_mint: &Vec<u8>,
    token_account: &Vec<u8>,
    metadata: &Vec<u8>,
    authority: &Vec<u8>,
    auction_house: &Vec<u8>,
    reward_center: &Vec<u8>,
    rewardable_collection: &Vec<u8>,
    buyer_price: u64,
    token_size: u64,
    ctx: &ProgramContext,
) -> (r: Option<CreateOfferInstruction>)
    requires
        ctx@.wf(),
    ensures
        (r is None) == (pda_of(fee_account_seeds(auction_house@), ctx@.auction_house_program)
            is None || pda_of(
            auctioneer_seeds(auction_house@, reward_center@),
            ctx@.auction_house_program,
        ) is None || pda_of(
            escrow_payment_seeds(auction_house@, wallet@),
            ctx@.auction_house_program,
        ) is None || pda_of(
            public_bid_trade_state_seeds(
                wallet@,
                auction_house@,
                treasury_mint@,
                token_mint@,
                buyer_price,
                token_size,
            ),
            ctx@.auction_house_program,
        ) is None || pda_of(
            offer_seeds(wallet@, metadata@, rewardable_collection@),
            ctx@.rewards_program,
        ) is None),
        r matches Some(ix) ==> {
            &&& ix.program_id@ == ctx@.rewards_program
            &&& ix.auction_house_program@ == ctx@.auction_house_program
            &&& ix.wallet@ == wallet@
            &&& ix.payment_account@ == payment_account@
            &&& ix.transfer_authority@ == transfer_authority@
            &&& ix.treasury_mint@ == treasury_mint@
            &&& ix.token_account@ == token_account@
            &&& ix.metadata@ == metadata@
            &&& ix.authority@ == authority@
            &&& ix.auction_house@ == auction_house@
            &&& ix.reward_center@ == reward_center@
            &&& ix.rewardable_collection@ == rewardable_collection@
            &&& addr_matches(
                pda_of(fee_account_seeds(auction_house@), ctx@.auction_house_program),
                ix.auction_house_fee_account@,
            )
            &&& addr_matches(
                pda_of(
                    auctioneer_seeds(auction_house@, reward_center@),
                    ctx@.auction_house_program,
                ),
                ix.ah_auctioneer_pda@,
            )
            &&& pda_of(
                escrow_payment_seeds(auction_house@, wallet@),
                ctx@.auction_house_program,
            ) == Some((ix.escrow_payment_account@, ix.escrow_payment_bump))
            &&& pda_of(
                public_bid_trade_state_seeds(
                    wallet@,
                    auction_house@,
                    treasury_mint@,
                    token_mint@,
                    buyer_price,
                    token_size,
                ),
                ctx@.auction_house_program,
            ) == Some((ix.buyer_trade_state@, ix.trade_state_bump))
            &&& addr_matches(
                pda_of(
                    offer_seeds(wallet@, metadata@, rewardable_collection@),
                    ctx@.rewards_program,
                ),
                ix.offer@,
            )
            &&& ix.buyer_price == buyer_price
            &&& ix.token_size == token_size
        },
{
    let fee = match derive_fee_account_address(auction_house, &ctx.auction_house_program) {
        Some(d) => d.0,
        None => {
            return None;
        },
    };
    let scope = match derive_auctioneer_address(
        auction_house,
        reward_center,
        &ctx.auction_house_program,
    ) {
        Some(d) => d.0,
        None => {
            return None;
        },
    };
    let escrow = match derive_escrow_payment_address(
        auction_house,
        wallet,
        &ctx.auction_house_program,
    ) {
        Some(d) => d,
        None => {
            return None;
        },
    };
    let trade_state = match derive_public_bid_trade_state_address(
        wallet,
        auction_house,
        treasury_mint,
        token_mint,
        buyer_price,
        token_size,
        &ctx.auction_house_program,
    ) {
        Some(d) => d,
        None => {
            return None;
        },
    };
    let offer = match derive_offer_address(
        wallet,
        metadata,
        rewardable_collection,
        &ctx.rewards_program,
    ) {
        Some(d) => d.0,
        None => {
            return None;
        },
    };
    Some(
        CreateOfferInstruction {
            program_id: copy_bytes(&ctx.rewards_program),
            auction_house_program: copy_bytes(&ctx.auction_house_program),
            ah_auctioneer_pda: scope,
            auction_house: copy_bytes(auction_house),
            auction_house_fee_account: fee,
            authority: copy_bytes(authority),
            buyer_trade_state: trade_state.0,
            metadata: copy_bytes(metadata),
            payment_account: copy_bytes(payment_account),
            reward_center: copy_bytes(reward_center),
            token_account: copy_bytes(token_account),
            transfer_authority: copy_bytes(transfer_authority),
            treasury_mint: copy_bytes(treasury_mint),
            escrow_payment_account: escrow.0,
            wallet: copy_bytes(wallet),
            rewardable_collection: copy_bytes(rewardable_collection),
            offer,
            buyer_price,
            token_size,
            trade_state_bump: trade_state.1,
            escrow_payment_bump: escrow.1,
        },
    )
}

/// The instruction closing an offer.
pub struct CloseOfferInstruction {
    pub program_id: Vec<u8>,
    pub auction_house_program: Vec<u8>,
    pub ah_auctioneer_pda: Vec<u8>,
    pub auction_house: Vec<u8>,
    pub auction_house_fee_account: Vec<u8>,
    pub authority: Vec<u8>,
    pub trade_state: Vec<u8>,
    pub metadata: Vec<u8>,
    pub receipt_account: Vec<u8>,
    pub reward_center: Vec<u8>,
    pub token_account: Vec<u8>,
    pub token_mint: Vec<u8>,
    pub treasury_mint: Vec<u8>,
    pub escrow_payment_account: Vec<u8>,
    pub wallet: Vec<u8>,
    pub rewardable_collection: Vec<u8>,
    pub offer: Vec<u8>,
    pub buyer_price: u64,
    pub token_size: u64,
    pub trade_state_bump: u8,
    pub escrow_payment_bump: u8,
}

/// Builds the offer close instruction: the same derivations as creation, so
/// the same price and size find the same trade state and escrow, plus the
/// receipt account the refund flows to.
pub fn close_offer(
    wallet: &Vec<u8>,
    receipt_account: &Vec<u8>,
    treasury_mint: &Vec<u8>,
    token_mint: &Vec<u8>,
    token_account: &Vec<u8>,
    metadata: &Vec<u8>,
    authority: &Vec<u8>,
    auction_house: &Vec<u8>,
    reward_center: &Vec<u8>,
    rewardable_collection: &Vec<u8>,
    buyer_price: u64,
    token_size: u64,
    ctx: &ProgramContext,
) -> (r: Option<CloseOfferInstruction>)
    requires
        ctx@.wf(),
    ensures
        (r is None) == (pda_of(fee_account_seeds(auction_house@), ctx@.auction_house_program)
            is None || pda_of(
            auctioneer_seeds(auction_house@, reward_center@),
            ctx@.auction_house_program,
        ) is None || pda_of(
            escrow_payment_seeds(auction_house@, wallet@),
            ctx@.auction_house_program,
        ) is None || pda_of(
            public_bid_trade_state_seeds(
                wallet@,
                auction_house@,
                treasury_mint@,
                token_mint@,
                buyer_price,
                token_size,
            ),
            ctx@.auction_house_program,
        ) is None || pda_of(
            offer_seeds(wallet@, metadata@, rewardable_collection@),
            ctx@.rewards_program,
        ) is None),
        r matches Some(ix) ==> {
            &&& ix.program_id@ == ctx@.rewards_program
            &&& ix.auction_house_program@ == ctx@.auction_house_program
            &&& ix.wallet@ == wallet@
            &&& ix.receipt_account@ == receipt_account@
            &&& ix.treasury_mint@ == treasury_mint@
            &&& ix.token_mint@ == token_mint@
            &&& ix.token_account@ == token_account@
            &&& ix.metadata@ == metadata@
            &&& ix.authority@ == authority@
            &&& ix.auction_house@ == auction_house@
            &&& ix.reward_center@ == reward_center@
            &&& ix.rewardable_collection@ == rewardable_collection@
            &&& addr_matches(
                pda_of(fee_account_seeds(auction_house@), ctx@.auction_house_program),
                ix.auction_house_fee_account@,
            )
            &&& addr_matches(
                pda_of(
                    auctioneer_seeds(auction_house@, reward_center@),
                    ctx@.auction_house_program,
                ),
                ix.ah_auctioneer_pda@,
            )
            &&& pda_of(
                escrow_payment_seeds(auction_house@, wallet@),
                ctx@.auction_house_program,
            ) == Some((ix.escrow_payment_account@, ix.escrow_payment_bump))
            &&& pda_of(
                public_bid_trade_state_seeds(
                    wallet@,
                    auction_house@,
                    treasury_mint@,
                    token_mint@,
                    buyer_price,
                    token_size,
                ),
                ctx@.auction_house_program,
            ) == Some((ix.trade_state@, ix.trade_state_bump))
            &&& addr_matches(
                pda_of(
                    offer_seeds(wallet@, metadata@, rewardable_collection@),
                    ctx@.rewards_program,
                ),
                ix.offer@,
            )
            &&& ix.buyer_price == buyer_price
            &&& ix.token_size == token_size
        },
{
    let fee = match derive_fee_account_address(auction_house, &ctx.auction_house_program) {
        Some(d) => d.0,
        None => {
            return None;
        },
    };
    let scope = match derive_auctioneer_address(
        auction_house,
        reward_center,
        &ctx.auction_house_program,
    ) {
        Some(d) => d.0,
        None => {
            return None;
        },
    };
    let escrow = match derive_escrow_payment_address(
        auction_house,
        wallet,
        &ctx.auction_house_program,
    ) {
        Some(d) => d,
        None => {
            return None;
        },
    };
    let trade_state = match derive_public_bid_trade_state_address(
        wallet,
        auction_house,
        treasury_mint,
        token_mint,
        buyer_price,
        token_size,
        &ctx.auction_house_program,
    ) {
        Some(d) => d,
        None => {
            return None;
        },
    };
    let offer = match derive_offer_address(
        wallet,
        metadata,
        rewardable_collection,
        &ctx.rewards_program,
    ) {
        Some(d) => d.0,
        None => {
            return None;
        },
    };
    Some(
        CloseOfferInstruction {
            program_id: copy_bytes(&ctx.rewards_program),
            auction_house_program: copy_bytes(&ctx.auction_house_program),
            ah_auctioneer_pda: scope,
            auction_house: copy_bytes(auction_house),
            auction_house_fee_account: fee,
            authority: copy_bytes(authority),
            trade_state: trade_state.0,
            metadata: copy_bytes(metadata),
            receipt_account: copy_bytes(receipt_account),
            reward_center: copy_bytes(reward_center),
            token_account: copy_bytes(token_account),
            token_mint: copy_bytes(token_mint),
            treasury_mint: copy_bytes(treasury_mint),
            escrow_payment_account: escrow.0,
            wallet: copy_bytes(wallet),
            rewardable_collection: copy_bytes(rewardable_collection),
            offer,
            buyer_price,
            token_size,
            trade_state_bump: trade_state.1,
            escrow_payment_bump: escrow.1,
        },
    )
}

} // verus!
