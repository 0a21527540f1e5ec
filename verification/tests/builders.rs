use std::str::FromStr;

use listing_rewards::bytes_eq;
use listing_rewards::calls::SigningContext;
use listing_rewards::pda::{
    derive_auctioneer_address, derive_escrow_payment_address, derive_fee_account_address,
    derive_offer_address, derive_program_as_signer_address, derive_public_bid_trade_state_address,
    derive_reward_center_address, derive_rewardable_collection_address, derive_trade_state_address,
};
use listing_rewards::registry::{CreateRewardCenterParams, EditRewardCenterParams};
use listing_rewards::sdk;
use listing_rewards::state::{ProgramContext, RewardRules};

fn addr(tag: u8) -> Vec<u8> {
    let mut v = vec![tag; 32];
    v[0] = tag.wrapping_add(1);
    v
}

fn test_context() -> ProgramContext {
    ProgramContext {
        rewards_program: addr(10),
        auction_house_program: addr(20),
        token_program: solana_program::pubkey::Pubkey::from_str(
            "TokenkegQfeZyiNwAJbNbGKPFXCWuBvf9Ss623VQ5DA",
        )
        .unwrap()
        .to_bytes()
        .to_vec(),
        associated_token_program: spl_associated_token_account::id().to_bytes().to_vec(),
    }
}

#[test]
fn byte_comparison() {
    assert!(bytes_eq(&vec![], &vec![]));
    assert!(bytes_eq(&vec![1, 2, 3], &vec![1, 2, 3]));
    assert!(!bytes_eq(&vec![1, 2, 3], &vec![1, 2, 4]));
    assert!(!bytes_eq(&vec![1, 2, 3], &vec![1, 2]));
}

#[test]
fn signing_context_seed_tuple() {
    let auction_house = addr(30);
    let signer = SigningContext { auction_house: auction_house.clone(), bump: 7 };
    let seeds = signer.seed_tuple();
    assert_eq!(seeds.len(), 3);
    assert_eq!(seeds[0], b"reward_center".to_vec());
    assert_eq!(seeds[1], auction_house);
    assert_eq!(seeds[2], vec![7]);
}

#[test]
fn reward_center_builders_fill_derived_accounts() {
    let ctx = test_context();
    let wallet = addr(40);
    let mint = addr(31);
    let auction_house = addr(30);
    let params = CreateRewardCenterParams {
        collection_oracle: None,
        rules: RewardRules { warmup_seconds: 60, payout_basis_points: 100 },
    };
    let ix = sdk::create_reward_center(&wallet, &mint, &auction_house, &ctx, params)
        .expect("builder succeeds");
    let expected_center = derive_reward_center_address(&auction_house, &ctx.rewards_program)
        .expect("derivation exists")
        .0;
    assert_eq!(ix.reward_center, expected_center);
    assert_eq!(ix.program_id, ctx.rewards_program);
    assert_ne!(ix.associated_token_account, ix.reward_center);

    let edit = sdk::edit_reward_center(
        &wallet,
        &auction_house,
        &ctx,
        EditRewardCenterParams {
            rules: RewardRules { warmup_seconds: 1, payout_basis_points: 1 },
        },
    )
    .expect("builder succeeds");
    assert_eq!(edit.reward_center, expected_center);

    let collection = addr(36);
    let membership = sdk::create_rewardable_collection(
        &wallet,
        &auction_house,
        &expected_center,
        &collection,
        &ctx,
    )
    .expect("builder succeeds");
    let expected_membership = derive_rewardable_collection_address(
        &expected_center,
        &collection,
        &ctx.rewards_program,
    )
    .expect("derivation exists")
    .0;
    assert_eq!(membership.rewardable_collection, expected_membership);
    let deletion = sdk::delete_rewardable_collection(
        &wallet,
        &auction_house,
        &expected_center,
        &collection,
        &ctx,
    )
    .expect("builder succeeds");
    assert_eq!(deletion.rewardable_collection, expected_membership);
}

#[test]
fn listing_builders_fill_derived_accounts() {
    let ctx = test_context();
    let wallet = addr(40);
    let auction_house = addr(30);
    let reward_center = addr(38);
    let rewardable_collection = addr(39);
    let token_account = addr(44);
    let token_mint = addr(43);
    let treasury_mint = addr(35);
    let metadata = addr(42);
    let authority = addr(32);
    let listing = addr(45);
    let seller_trade_state = addr(46);
    let free_seller_trade_state = addr(47);

    let ix = sdk::create_listing(
        &wallet,
        &listing,
        &reward_center,
        &rewardable_collection,
        &token_account,
        &metadata,
        &authority,
        &auction_house,
        &seller_trade_state,
        &free_seller_trade_state,
        5_000,
        1,
        250,
        251,
        &ctx,
    )
    .expect("builder succeeds");
    let fee = derive_fee_account_address(&auction_house, &ctx.auction_house_program)
        .expect("derivation exists")
        .0;
    let scope = derive_auctioneer_address(&auction_house, &reward_center, &ctx.auction_house_program)
        .expect("derivation exists")
        .0;
    let (signer, signer_bump) =
        derive_program_as_signer_address(&ctx.auction_house_program).expect("derivation exists");
    assert_eq!(ix.auction_house_fee_account, fee);
    assert_eq!(ix.ah_auctioneer_pda, scope);
    assert_eq!(ix.program_as_signer, signer);
    assert_eq!(ix.params.program_as_signer_bump, signer_bump);
    assert_eq!(ix.params.price, 5_000);
    assert_eq!(ix.params.trade_state_bump, 250);

    let cancel = sdk::cancel_listing(
        &wallet,
        &listing,
        &reward_center,
        &rewardable_collection,
        &token_account,
        &token_mint,
        &treasury_mint,
        &metadata,
        &authority,
        &auction_house,
        5_000,
        1,
        &ctx,
    )
    .expect("builder succeeds");
    let expected_trade_state = derive_trade_state_address(
        &wallet,
        &auction_house,
        &token_account,
        &treasury_mint,
        &token_mint,
        u64::MAX,
        1,
        &ctx.auction_house_program,
    )
    .expect("derivation exists")
    .0;
    assert_eq!(cancel.trade_state, expected_trade_state);
    assert_eq!(cancel.auction_house_fee_account, fee);
    assert_eq!(cancel.params.price, 5_000);
}

#[test]
fn offer_builders_fill_derived_accounts_and_bumps() {
    let ctx = test_context();
    let wallet = addr(40);
    let auction_house = addr(30);
    let reward_center = addr(38);
    let rewardable_collection = addr(39);
    let token_account = addr(44);
    let token_mint = addr(43);
    let treasury_mint = addr(35);
    let metadata = addr(42);
    let authority = addr(32);
    let payment_account = addr(48);
    let transfer_authority = addr(49);
    let receipt_account = addr(50);

    let ix = sdk::create_offer(
        &wallet,
        &payment_account,
        &transfer_authority,
        &treasury_mint,
        &token_mint,
        &token_account,
        &metadata,
        &authority,
        &auction_house,
        &reward_center,
        &rewardable_collection,
        7_000,
        1,
        &ctx,
    )
    .expect("builder succeeds");
    let (escrow, escrow_bump) =
        derive_escrow_payment_address(&auction_house, &wallet, &ctx.auction_house_program)
            .expect("derivation exists");
    let (trade_state, trade_state_bump) = derive_public_bid_trade_state_address(
        &wallet,
        &auction_house,
        &treasury_mint,
        &token_mint,
        7_000,
        1,
        &ctx.auction_house_program,
    )
    .expect("derivation exists");
    let offer = derive_offer_address(&wallet, &metadata, &rewardable_collection, &ctx.rewards_program)
        .expect("derivation exists")
        .0;
    assert_eq!(ix.escrow_payment_account, escrow);
    assert_eq!(ix.escrow_payment_bump, escrow_bump);
    assert_eq!(ix.buyer_trade_state, trade_state);
    assert_eq!(ix.trade_state_bump, trade_state_bump);
    assert_eq!(ix.offer, offer);

    let close = sdk::close_offer(
        &wallet,
        &receipt_account,
        &treasury_mint,
        &token_mint,
        &token_account,
        &metadata,
        &authority,
        &auction_house,
        &reward_center,
        &rewardable_collection,
        7_000,
        1,
        &ctx,
    )
    .expect("builder succeeds");
    assert_eq!(close.trade_state, trade_state);
    assert_eq!(close.trade_state_bump, trade_state_bump);
    assert_eq!(close.escrow_payment_account, escrow);
    assert_eq!(close.offer, offer);
    assert_eq!(close.receipt_account, receipt_account);
}
