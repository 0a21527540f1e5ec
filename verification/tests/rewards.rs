use std::str::FromStr;

use listing_rewards::calls::DelegatedCall;
use listing_rewards::errors::RewardsError;
use listing_rewards::listings::{
    cancel_listing, create_listing, CancelListingAccounts, CancelListingParams,
    CreateListingAccounts, CreateListingParams,
};
use listing_rewards::offers::{
    close_offer, create_offer, CloseOfferAccounts, CloseOfferParams, CreateOffer,
    CreateOfferParams,
};
use listing_rewards::pda::{
    derive_associated_token_address, derive_auction_house_address, derive_auctioneer_address,
    derive_fee_account_address, derive_offer_address, derive_program_as_signer_address,
    derive_public_bid_trade_state_address, derive_reward_center_address,
    derive_rewardable_collection_address, derive_trade_state_address, u64_to_le_bytes,
};
use listing_rewards::registry::{
    create_reward_center, create_rewardable_collection, delete_rewardable_collection,
    edit_reward_center, CreateRewardCenterParams, EditRewardCenterParams,
};
use listing_rewards::state::{
    AuctionHouse, ProgramContext, RewardRules, RewardsLedger, TokenAccount,
};

fn addr(tag: u8) -> Vec<u8> {
    let mut v = vec![tag; 32];
    v[0] = tag.wrapping_add(1);
    v
}

fn test_context() -> ProgramContext {
    ProgramContext {
        rewards_program: addr(10),
        auction_house_program: addr(20),
        token_program: solana_program::pubkey::Pubkey::from_str(
            "TokenkegQfeZyiNwAJbNbGKPFXCWuBvf9Ss623VQ5DA",
        )
        .unwrap()
        .to_bytes()
        .to_vec(),
        associated_token_program: spl_associated_token_account::id().to_bytes().to_vec(),
    }
}

#[test]
fn derivation_is_deterministic_and_nontrivial() {
    let ctx = test_context();
    let auction_house = addr(30);
    let first = derive_reward_center_address(&auction_house, &ctx.rewards_program)
        .expect("derivation exists");
    let second = derive_reward_center_address(&auction_house, &ctx.rewards_program)
        .expect("derivation exists");
    assert_eq!(first, second);
    assert_eq!(first.0.len(), 32);
    assert_ne!(first.0, auction_house);
    assert_ne!(first.0, ctx.rewards_program);
}

#[test]
fn derivation_matches_the_runtime() {
    let ctx = test_context();
    let auction_house = addr(30);
    let (address, bump) = derive_reward_center_address(&auction_house, &ctx.rewards_program)
        .expect("derivation exists");
    let program = solana_program::pubkey::Pubkey::new_from_array(
        ctx.rewards_program.as_slice().try_into().unwrap(),
    );
    let (expected, expected_bump) = solana_program::pubkey::Pubkey::find_program_address(
        &[b"reward_center", auction_house.as_slice()],
        &program,
    );
    assert_eq!(address, expected.to_bytes().to_vec());
    assert_eq!(bump, expected_bump);
}

#[test]
fn associated_token_derivation_matches_the_token_crate() {
    let ctx = test_context();
    let wallet = addr(40);
    let mint = addr(41);
    let (address, _) =
        derive_associated_token_address(&wallet, &mint, &ctx.token_program, &ctx.associated_token_program)
            .expect("derivation exists");
    let expected = spl_associated_token_account::get_associated_token_address(
        &spl_associated_token_account::solana_program::pubkey::Pubkey::new_from_array(
            wallet.as_slice().try_into().unwrap(),
        ),
        &spl_associated_token_account::solana_program::pubkey::Pubkey::new_from_array(
            mint.as_slice().try_into().unwrap(),
        ),
    );
    assert_eq!(address, expected.to_bytes().to_vec());
}

#[test]
fn u64_serialization_is_little_endian() {
    let bytes = u64_to_le_bytes(0x0102030405060708);
    assert_eq!(bytes, vec![8, 7, 6, 5, 4, 3, 2, 1]);
    assert_eq!(bytes, 0x0102030405060708u64.to_le_bytes().to_vec());
    assert_eq!(u64_to_le_bytes(u64::MAX), vec![255; 8]);
}

#[test]
fn reward_center_create_twice_fails() {
    let ctx = test_context();
    let mut ledger = RewardsLedger::new();
    let auction_house = addr(30);
    let mint = addr(31);
    let params = CreateRewardCenterParams {
        collection_oracle: None,
        rules: RewardRules { warmup_seconds: 24 * 60 * 60, payout_basis_points: 1000 },
    };
    let provisioned = create_reward_center(&mut ledger, &ctx, &mint, &auction_house, params)
        .expect("first creation succeeds");
    assert_eq!(provisioned.address.len(), 32);
    let again = CreateRewardCenterParams {
        collection_oracle: None,
        rules: RewardRules { warmup_seconds: 60, payout_basis_points: 100 },
    };
    let second = create_reward_center(&mut ledger, &ctx, &mint, &auction_house, again);
    assert_eq!(second.unwrap_err(), RewardsError::DuplicateEntity);
    assert_eq!(ledger.reward_centers.len(), 1);
}

#[test]
fn edit_by_stranger_is_rejected_and_changes_nothing() {
    let ctx = test_context();
    let mut ledger = RewardsLedger::new();
    let auction_house_key = addr(30);
    let mint = addr(31);
    let authority = addr(32);
    let stranger = addr(33);
    let rules = RewardRules { warmup_seconds: 3600, payout_basis_points: 500 };
    create_reward_center(
        &mut ledger,
        &ctx,
        &mint,
        &auction_house_key,
        CreateRewardCenterParams { collection_oracle: None, rules },
    )
    .expect("creation succeeds");
    let house = AuctionHouse {
        key: auction_house_key.clone(),
        creator: addr(34),
        authority: authority.clone(),
        treasury_mint: addr(35),
        bump: 0,
        fee_payer_bump: 0,
        auctioneer_pda_bump: 0,
    };
    let outcome = edit_reward_center(
        &mut ledger,
        &stranger,
        &house,
        EditRewardCenterParams {
            rules: RewardRules { warmup_seconds: 1, payout_basis_points: 1 },
        },
    );
    assert_eq!(outcome.unwrap_err(), RewardsError::AuthorityMismatch);
    assert_eq!(ledger.reward_centers[0].rules, rules);

    let accepted = edit_reward_center(
        &mut ledger,
        &authority,
        &house,
        EditRewardCenterParams {
            rules: RewardRules { warmup_seconds: 1, payout_basis_points: 1 },
        },
    );
    assert!(accepted.is_ok());
    assert_eq!(
        ledger.reward_centers[0].rules,
        RewardRules { warmup_seconds: 1, payout_basis_points: 1 }
    );
}

#[test]
fn rewardable_collection_duplicate_and_missing_delete_fail() {
    let ctx = test_context();
    let mut ledger = RewardsLedger::new();
    let auction_house_key = addr(30);
    let mint = addr(31);
    let authority = addr(32);
    let collection = addr(36);
    create_reward_center(
        &mut ledger,
        &ctx,
        &mint,
        &auction_house_key,
        CreateRewardCenterParams {
            collection_oracle: None,
            rules: RewardRules { warmup_seconds: 0, payout_basis_points: 0 },
        },
    )
    .expect("creation succeeds");
    let reward_center = derive_reward_center_address(&auction_house_key, &ctx.rewards_program)
        .expect("derivation exists")
        .0;
    let house = AuctionHouse {
        key: auction_house_key.clone(),
        creator: addr(34),
        authority: authority.clone(),
        treasury_mint: addr(35),
        bump: 0,
        fee_payer_bump: 0,
        auctioneer_pda_bump: 0,
    };
    let missing = delete_rewardable_collection(
        &mut ledger,
        &ctx,
        &authority,
        &house,
        &reward_center,
        &collection,
    );
    assert_eq!(missing.unwrap_err(), RewardsError::EntityNotFound);

    let created = create_rewardable_collection(
        &mut ledger,
        &ctx,
        &authority,
        &house,
        &reward_center,
        &collection,
    );
    assert!(created.is_ok());
    let duplicate = create_rewardable_collection(
        &mut ledger,
        &ctx,
        &authority,
        &house,
        &reward_center,
        &collection,
    );
    assert_eq!(duplicate.unwrap_err(), RewardsError::DuplicateEntity);

    let stranger = addr(37);
    let ungated = delete_rewardable_collection(
        &mut ledger,
        &ctx,
        &stranger,
        &house,
        &reward_center,
        &collection,
    );
    assert_eq!(ungated.unwrap_err(), RewardsError::AuthorityMismatch);
    let removed = delete_rewardable_collection(
        &mut ledger,
        &ctx,
        &authority,
        &house,
        &reward_center,
        &collection,
    );
    assert!(removed.is_ok());
    assert!(ledger.collections.is_empty());
}

struct ListingFixture {
    ctx: ProgramContext,
    ledger: RewardsLedger,
    house: AuctionHouse,
    accounts: CreateListingAccounts,
    params: CreateListingParams,
}

fn listing_fixture() -> ListingFixture {
    let ctx = test_context();
    let mut ledger = RewardsLedger::new();
    let auction_house_key = addr(30);
    let reward_mint = addr(31);
    let authority = addr(32);
    let treasury_mint = addr(35);
    let collection = addr(36);
    let wallet = addr(40);
    let metadata = addr(42);
    let token_mint = addr(43);
    let token_account_key = addr(44);
    let price: u64 = 1_000_000;
    let token_size: u64 = 1;

    create_reward_center(
        &mut ledger,
        &ctx,
        &reward_mint,
        &auction_house_key,
        CreateRewardCenterParams {
            collection_oracle: None,
            rules: RewardRules { warmup_seconds: 0, payout_basis_points: 0 },
        },
    )
    .expect("creation succeeds");
    let reward_center = derive_reward_center_address(&auction_house_key, &ctx.rewards_program)
        .expect("derivation exists")
        .0;
    let (fee_account, fee_payer_bump) =
        derive_fee_account_address(&auction_house_key, &ctx.auction_house_program)
            .expect("derivation exists");
    let (scope, auctioneer_pda_bump) =
        derive_auctioneer_address(&auction_house_key, &reward_center, &ctx.auction_house_program)
            .expect("derivation exists");
    let house = AuctionHouse {
        key: auction_house_key.clone(),
        creator: addr(34),
        authority: authority.clone(),
        treasury_mint: treasury_mint.clone(),
        bump: 0,
        fee_payer_bump,
        auctioneer_pda_bump,
    };
    create_rewardable_collection(
        &mut ledger,
        &ctx,
        &authority,
        &house,
        &reward_center,
        &collection,
    )
    .expect("membership created");
    let rewardable_collection =
        derive_rewardable_collection_address(&reward_center, &collection, &ctx.rewards_program)
            .expect("derivation exists")
            .0;
    let listing = listing_rewards::pda::derive_listing_address(
        &wallet,
        &metadata,
        &rewardable_collection,
        &ctx.rewards_program,
    )
    .expect("derivation exists")
    .0;
    let (program_as_signer, program_as_signer_bump) =
        derive_program_as_signer_address(&ctx.auction_house_program).expect("derivation exists");
    let (seller_trade_state, trade_state_bump) = derive_trade_state_address(
        &wallet,
        &auction_house_key,
        &token_account_key,
        &treasury_mint,
        &token_mint,
        price,
        token_size,
        &ctx.auction_house_program,
    )
    .expect("derivation exists");
    let (free_seller_trade_state, free_trade_state_bump) = derive_trade_state_address(
        &wallet,
        &auction_house_key,
        &token_account_key,
        &treasury_mint,
        &token_mint,
        0,
        token_size,
        &ctx.auction_house_program,
    )
    .expect("derivation exists");

    let accounts = CreateListingAccounts {
        wallet: wallet.clone(),
        listing,
        reward_center,
        rewardable_collection,
        collection,
        token_account: TokenAccount {
            key: token_account_key,
            owner: wallet,
            mint: token_mint,
            amount: 1,
        },
        metadata,
        auction_house: house.clone(),
        auction_house_fee_account: fee_account,
        seller_trade_state,
        free_seller_trade_state,
        program_as_signer,
        ah_auctioneer_pda: scope,
    };
    let params = CreateListingParams {
        price,
        token_size,
        trade_state_bump,
        free_trade_state_bump,
        program_as_signer_bump,
    };
    ListingFixture { ctx, ledger, house, accounts, params }
}

#[test]
fn listing_create_then_cancel_leaves_no_residue() {
    let mut fx = listing_fixture();
    let collections_before = fx.ledger.collections.len();
    let request = create_listing(&mut fx.ledger, &fx.ctx, &fx.accounts, fx.params)
        .expect("listing creation succeeds");
    assert_eq!(fx.ledger.listings.len(), 1);
    match request.call {
        DelegatedCall::Sell { seller_trade_state, price, token_size, .. } => {
            assert_eq!(seller_trade_state, fx.accounts.seller_trade_state);
            assert_eq!(price, fx.params.price);
            assert_eq!(token_size, fx.params.token_size);
        }
        _ => panic!("expected a sell call"),
    }
    assert_eq!(request.signer.auction_house, fx.house.key);

    let cancel_accounts = CancelListingAccounts {
        wallet: fx.accounts.wallet.clone(),
        metadata: fx.accounts.metadata.clone(),
        reward_center: fx.accounts.reward_center.clone(),
        rewardable_collection: fx.accounts.rewardable_collection.clone(),
        token_account: TokenAccount {
            key: fx.accounts.token_account.key.clone(),
            owner: fx.accounts.token_account.owner.clone(),
            mint: fx.accounts.token_account.mint.clone(),
            amount: fx.accounts.token_account.amount,
        },
        auction_house: fx.house.clone(),
    };
    let cancelled = cancel_listing(
        &mut fx.ledger,
        &fx.ctx,
        &cancel_accounts,
        CancelListingParams { price: fx.params.price, token_size: fx.params.token_size },
    )
    .expect("cancellation succeeds");
    match cancelled.call {
        DelegatedCall::Cancel { price, token_size, .. } => {
            assert_eq!(price, fx.params.price);
            assert_eq!(token_size, fx.params.token_size);
        }
        _ => panic!("expected a cancel call"),
    }
    assert!(fx.ledger.listings.is_empty());
    assert_eq!(fx.ledger.collections.len(), collections_before);
}

#[test]
fn listing_with_noncanonical_bump_is_rejected() {
    let mut fx = listing_fixture();
    let mut params = fx.params;
    params.trade_state_bump = params.trade_state_bump.wrapping_add(1);
    let outcome = create_listing(&mut fx.ledger, &fx.ctx, &fx.accounts, params);
    assert_eq!(outcome.unwrap_err(), RewardsError::DerivationMismatch);
    assert!(fx.ledger.listings.is_empty());

    let mut wrong_signer = fx.params;
    wrong_signer.program_as_signer_bump = wrong_signer.program_as_signer_bump.wrapping_add(1);
    let outcome = create_listing(&mut fx.ledger, &fx.ctx, &fx.accounts, wrong_signer);
    assert_eq!(outcome.unwrap_err(), RewardsError::DerivationMismatch);
    assert!(fx.ledger.listings.is_empty());
}

#[test]
fn listing_duplicate_is_rejected() {
    let mut fx = listing_fixture();
    create_listing(&mut fx.ledger, &fx.ctx, &fx.accounts, fx.params)
        .expect("listing creation succeeds");
    let outcome = create_listing(&mut fx.ledger, &fx.ctx, &fx.accounts, fx.params);
    assert_eq!(outcome.unwrap_err(), RewardsError::DuplicateEntity);
    assert_eq!(fx.ledger.listings.len(), 1);
}

struct OfferFixture {
    ctx: ProgramContext,
    ledger: RewardsLedger,
    house: AuctionHouse,
    collection: Vec<u8>,
    wallet: Vec<u8>,
    metadata: Vec<u8>,
    token_mint: Vec<u8>,
    token_account_key: Vec<u8>,
    treasury_mint: Vec<u8>,
    reward_center: Vec<u8>,
}

fn offer_fixture() -> OfferFixture {
    let ctx = test_context();
    let mut ledger = RewardsLedger::new();
    let reward_mint = addr(31);
    let authority = addr(32);
    let creator = addr(34);
    let treasury_mint = addr(35);
    let collection = addr(36);
    let wallet = addr(40);
    let metadata = addr(42);
    let token_mint = addr(43);
    let token_account_key = addr(44);

    let (auction_house_key, house_bump) =
        derive_auction_house_address(&creator, &treasury_mint, &ctx.auction_house_program)
            .expect("derivation exists");
    create_reward_center(
        &mut ledger,
        &ctx,
        &reward_mint,
        &auction_house_key,
        CreateRewardCenterParams {
            collection_oracle: None,
            rules: RewardRules { warmup_seconds: 0, payout_basis_points: 0 },
        },
    )
    .expect("creation succeeds");
    let reward_center = derive_reward_center_address(&auction_house_key, &ctx.rewards_program)
        .expect("derivation exists")
        .0;
    let (_, fee_payer_bump) =
        derive_fee_account_address(&auction_house_key, &ctx.auction_house_program)
            .expect("derivation exists");
    let (_, auctioneer_pda_bump) =
        derive_auctioneer_address(&auction_house_key, &reward_center, &ctx.auction_house_program)
            .expect("derivation exists");
    let house = AuctionHouse {
        key: auction_house_key,
        creator,
        authority,
        treasury_mint: treasury_mint.clone(),
        bump: house_bump,
        fee_payer_bump,
        auctioneer_pda_bump,
    };
    OfferFixture {
        ctx,
        ledger,
        house,
        collection,
        wallet,
        metadata,
        token_mint,
        token_account_key,
        treasury_mint,
        reward_center,
    }
}

fn offer_inputs(fx: &OfferFixture, buyer_price: u64) -> (CreateOffer, CreateOfferParams) {
    let token_size: u64 = 1;
    let (escrow, escrow_payment_bump) = listing_rewards::pda::derive_escrow_payment_address(
        &fx.house.key,
        &fx.wallet,
        &fx.ctx.auction_house_program,
    )
    .expect("derivation exists");
    let (buyer_trade_state, trade_state_bump) = derive_public_bid_trade_state_address(
        &fx.wallet,
        &fx.house.key,
        &fx.treasury_mint,
        &fx.token_mint,
        buyer_price,
        token_size,
        &fx.ctx.auction_house_program,
    )
    .expect("derivation exists");
    let fee = derive_fee_account_address(&fx.house.key, &fx.ctx.auction_house_program)
        .expect("derivation exists")
        .0;
    let scope =
        derive_auctioneer_address(&fx.house.key, &fx.reward_center, &fx.ctx.auction_house_program)
            .expect("derivation exists")
            .0;
    let accounts = CreateOffer {
        wallet: fx.wallet.clone(),
        payment_account: fx.wallet.clone(),
        transfer_authority: fx.wallet.clone(),
        treasury_mint: fx.treasury_mint.clone(),
        token_account: TokenAccount {
            key: fx.token_account_key.clone(),
            owner: addr(50),
            mint: fx.token_mint.clone(),
            amount: 1,
        },
        metadata: fx.metadata.clone(),
        escrow_payment_account: escrow,
        authority: fx.house.authority.clone(),
        reward_center: fx.reward_center.clone(),
        auction_house: fx.house.clone(),
        auction_house_fee_account: fee,
        buyer_trade_state,
        ah_auctioneer_pda: scope,
    };
    let params = CreateOfferParams {
        collection: fx.collection.clone(),
        trade_state_bump,
        escrow_payment_bump,
        buyer_price,
        token_size,
    };
    (accounts, params)
}

#[test]
fn offers_at_two_prices_coexist_and_close_independently() {
    let mut fx = offer_fixture();
    let (accounts_low, params_low) = offer_inputs(&fx, 1_000);
    let (accounts_high, params_high) = offer_inputs(&fx, 2_000);

    let first = create_offer(&mut fx.ledger, &fx.ctx, &accounts_low, &params_low)
        .expect("first offer succeeds");
    match first.call {
        DelegatedCall::PublicBuy { buyer_price, .. } => assert_eq!(buyer_price, 1_000),
        _ => panic!("expected a public-buy call"),
    }
    create_offer(&mut fx.ledger, &fx.ctx, &accounts_high, &params_high)
        .expect("second offer succeeds");
    assert_eq!(fx.ledger.offers.len(), 2);
    assert_ne!(accounts_low.buyer_trade_state, accounts_high.buyer_trade_state);

    let same_again = create_offer(&mut fx.ledger, &fx.ctx, &accounts_low, &params_low);
    assert_eq!(same_again.unwrap_err(), RewardsError::DuplicateEntity);

    let receipt = derive_associated_token_address(
        &fx.wallet,
        &fx.treasury_mint,
        &fx.ctx.token_program,
        &fx.ctx.associated_token_program,
    )
    .expect("derivation exists")
    .0;
    let close_accounts = CloseOfferAccounts {
        wallet: fx.wallet.clone(),
        payment_account: fx.wallet.clone(),
        transfer_authority: fx.wallet.clone(),
        treasury_mint: fx.treasury_mint.clone(),
        token_account: TokenAccount {
            key: fx.token_account_key.clone(),
            owner: addr(50),
            mint: fx.token_mint.clone(),
            amount: 1,
        },
        metadata: fx.metadata.clone(),
        escrow_payment_account: accounts_low.escrow_payment_account.clone(),
        authority: fx.house.authority.clone(),
        reward_center: fx.reward_center.clone(),
        auction_house: fx.house.clone(),
        auction_house_fee_account: accounts_low.auction_house_fee_account.clone(),
        buyer_trade_state: accounts_low.buyer_trade_state.clone(),
        ah_auctioneer_pda: accounts_low.ah_auctioneer_pda.clone(),
        collection: fx.collection.clone(),
        receipt_account: receipt,
    };
    let close_params = CloseOfferParams {
        buyer_price: params_low.buyer_price,
        escrow_payment_bump: params_low.escrow_payment_bump,
        token_size: params_low.token_size,
        trade_state_bump: params_low.trade_state_bump,
    };
    let closed = close_offer(&mut fx.ledger, &fx.ctx, &close_accounts, close_params)
        .expect("close succeeds");
    match closed.call {
        DelegatedCall::CloseBuy { buyer_price, receipt_account, .. } => {
            assert_eq!(buyer_price, 1_000);
            assert_eq!(receipt_account, close_accounts.receipt_account);
        }
        _ => panic!("expected a close call"),
    }
    assert_eq!(fx.ledger.offers.len(), 1);
    assert_eq!(fx.ledger.offers[0].buyer_price, 2_000);

    let gone = close_offer(&mut fx.ledger, &fx.ctx, &close_accounts, close_params);
    assert_eq!(gone.unwrap_err(), RewardsError::EntityNotFound);
}

#[test]
fn offer_by_stranger_authority_is_rejected() {
    let mut fx = offer_fixture();
    let (mut accounts, params) = offer_inputs(&fx, 1_000);
    accounts.authority = addr(60);
    let outcome = create_offer(&mut fx.ledger, &fx.ctx, &accounts, &params);
    assert_eq!(outcome.unwrap_err(), RewardsError::AuthorityMismatch);
    assert!(fx.ledger.offers.is_empty());
}

#[test]
fn error_kinds_are_distinct() {
    let kinds = [
        RewardsError::DerivationMismatch,
        RewardsError::AuthorityMismatch,
        RewardsError::DuplicateEntity,
        RewardsError::EntityNotFound,
        RewardsError::DelegatedCallFailure,
    ];
    for (i, a) in kinds.iter().enumerate() {
        for (j, b) in kinds.iter().enumerate() {
            assert_eq!(i == j, a == b);
        }
    }
}
