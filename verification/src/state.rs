//! The entities the rewards layer keeps books on, their mathematical models,
//! and the local ledger that registry and lifecycle operations mutate.
//!
//! Every record is keyed by the seed tuple its address is derived from, so
//! key uniqueness in the ledger mirrors address uniqueness on chain.

use vstd::prelude::*;

verus! {

/// Reward-accrual rules of a reward center: the warm-up a listing must age
/// through before it accrues, and the payout rate applied afterwards.
#[derive(Clone, Copy, Debug, PartialEq, Eq, Structural)]
pub struct RewardRules {
    pub warmup_seconds: u64,
    pub payout_basis_points: u64,
}

/// One reward center: the rewards configuration bound to a single auction
/// house instance, and the derived identity that signs delegated calls.
pub struct RewardCenter {
    /// The auction house instance this center augments; its sole seed.
    pub auction_house: Vec<u8>,
    /// Mint of the token rewards are paid in.
    pub token_mint: Vec<u8>,
    /// Optional oracle consulted for collection eligibility.
    pub collection_oracle: Option<Vec<u8>>,
    pub rules: RewardRules,
    /// Canonical bump of the center's own derived address.
    pub bump: u8,
}

/// Model of a reward center.
pub struct RewardCenterV {
    pub auction_house: Seq<u8>,
    pub token_mint: Seq<u8>,
    pub collection_oracle: Option<Seq<u8>>,
    pub rules: RewardRules,
    pub bump: u8,
}

/// Model of an optional address.
pub open spec fn opt_bytes_view(o: Option<Vec<u8>>) -> Option<Seq<u8>> {
    match o {
        Some(v) => Some(v@),
        None => None,
    }
}

impl View for RewardCenter {
    type V = RewardCenterV;

    open spec fn view(&self) -> RewardCenterV {
        RewardCenterV {
            auction_house: self.auction_house@,
            token_mint: self.token_mint@,
            collection_oracle: opt_bytes_view(self.collection_oracle),
            rules: self.rules,
            bump: self.bump,
        }
    }
}

impl DeepView for RewardCenter {
    type V = RewardCenterV;

    open spec fn deep_view(&self) -> RewardCenterV {
        self.view()
    }
}

/// Marks one collection as eligible for rewards within one reward center.
pub struct RewardableCollection {
    pub reward_center: Vec<u8>,
    pub collection: Vec<u8>,
}

/// Model of a rewardable collection.
pub struct RewardableCollectionV {
    pub reward_center: Seq<u8>,
    pub collection: Seq<u8>,
}

impl View for RewardableCollection {
    type V = RewardableCollectionV;

    open spec fn view(&self) -> RewardableCollectionV {
        RewardableCollectionV {
            reward_center: self.reward_center@,
            collection: self.collection@,
        }
    }
}

impl DeepView for RewardableCollection {
    type V = RewardableCollectionV;

    open spec fn deep_view(&self) -> RewardableCollectionV {
        self.view()
    }
}

/// An active sell order created through the reward center.
pub struct Listing {
    pub wallet: Vec<u8>,
    pub metadata: Vec<u8>,
    pub rewardable_collection: Vec<u8>,
    pub price: u64,
    pub token_size: u64,
    /// Canonical bump of the listing record's own address.
    pub bump: u8,
    pub trade_state_bump: u8,
    pub free_trade_state_bump: u8,
}

/// Model of a listing.
pub struct ListingV {
    pub wallet: Seq<u8>,
    pub metadata: Seq<u8>,
    pub rewardable_collection: Seq<u8>,
    pub price: u64,
    pub token_size: u64,
    pub bump: u8,
    pub trade_state_bump: u8,
    pub free_trade_state_bump: u8,
}

impl View for Listing {
    type V = ListingV;

    open spec fn view(&self) -> ListingV {
        ListingV {
            wallet: self.wallet@,
            metadata: self.metadata@,
            rewardable_collection: self.rewardable_collection@,
            price: self.price,
            token_size: self.token_size,
            bump: self.bump,
            trade_state_bump: self.trade_state_bump,
            free_trade_state_bump: self.free_trade_state_bump,
        }
    }
}

impl DeepView for Listing {
    type V = ListingV;

    open spec fn deep_view(&self) -> ListingV {
        self.view()
    }
}

/// A buyer's public bid created through the reward center.
pub struct Offer {
    pub wallet: Vec<u8>,
    pub metadata: Vec<u8>,
    pub rewardable_collection: Vec<u8>,
    pub buyer_price: u64,
    pub token_size: u64,
    /// Canonical bump of the offer record's own address.
    pub bump: u8,
    pub trade_state_bump: u8,
    pub escrow_payment_bump: u8,
}

/// Model of an offer.
pub struct OfferV {
    pub wallet: Seq<u8>,
    pub metadata: Seq<u8>,
    pub rewardable_collection: Seq<u8>,
    pub buyer_price: u64,
    pub token_size: u64,
    pub bump: u8,
    pub trade_state_bump: u8,
    pub escrow_payment_bump: u8,
}

impl View for Offer {
    type V = OfferV;

    open spec fn view(&self) -> OfferV {
        OfferV {
            wallet: self.wallet@,
            metadata: self.metadata@,
            rewardable_collection: self.rewardable_collection@,
            buyer_price: self.buyer_price,
            token_size: self.token_size,
            bump: self.bump,
            trade_state_bump: self.trade_state_bump,
            escrow_payment_bump: self.escrow_payment_bump,
        }
    }
}

impl DeepView for Offer {
    type V = OfferV;

    open spec fn deep_view(&self) -> OfferV {
        self.view()
    }
}

/// What the rewards layer reads of the external auction house configuration
/// account: its address, the cross-referenced authority, and the canonical
/// bumps of the accounts derived under it.
#[derive(Clone)]
pub struct AuctionHouse {
    pub key: Vec<u8>,
    pub creator: Vec<u8>,
    pub authority: Vec<u8>,
    pub treasury_mint: Vec<u8>,
    pub bump: u8,
    pub fee_payer_bump: u8,
    pub auctioneer_pda_bump: u8,
}

/// Model of an auction house configuration account.
pub struct AuctionHouseV {
    pub key: Seq<u8>,
    pub creator: Seq<u8>,
    pub authority: Seq<u8>,
    pub treasury_mint: Seq<u8>,
    pub bump: u8,
    pub fee_payer_bump: u8,
    pub auctioneer_pda_bump: u8,
}

impl View for AuctionHouse {
    type V = AuctionHouseV;

    open spec fn view(&self) -> AuctionHouseV {
        AuctionHouseV {
            key: self.key@,
            creator: self.creator@,
            authority: self.authority@,
            treasury_mint: self.treasury_mint@,
            bump: self.bump,
            fee_payer_bump: self.fee_payer_bump,
            auctioneer_pda_bump: self.auctioneer_pda_bump,
        }
    }
}

/// What the rewards layer reads of an external token account.
pub struct TokenAccount {
    pub key: Vec<u8>,
    pub owner: Vec<u8>,
    pub mint: Vec<u8>,
    pub amount: u64,
}

/// Model of a token account.
pub struct TokenAccountV {
    pub key: Seq<u8>,
    pub owner: Seq<u8>,
    pub mint: Seq<u8>,
    pub amount: u64,
}

impl View for TokenAccount {
    type V = TokenAccountV;

    open spec fn view(&self) -> TokenAccountV {
        TokenAccountV {
            key: self.key@,
            owner: self.owner@,
            mint: self.mint@,
            amount: self.amount,
        }
    }
}

/// The well-known program identities an operation derives addresses under:
/// process-wide configuration injected at startup, never mutated.
pub struct ProgramContext {
    /// This rewards program's own id.
    pub rewards_program: Vec<u8>,
    /// The external auction engine's program id.
    pub auction_house_program: Vec<u8>,
    pub token_program: Vec<u8>,
    pub associated_token_program: Vec<u8>,
}

/// Model of the program identities.
pub struct ProgramContextV {
    pub rewards_program: Seq<u8>,
    pub auction_house_program: Seq<u8>,
    pub token_program: Seq<u8>,
    pub associated_token_program: Seq<u8>,
}

impl View for ProgramContext {
    type V = ProgramContextV;

    open spec fn view(&self) -> ProgramContextV {
        ProgramContextV {
            rewards_program: self.rewards_program@,
            auction_house_program: self.auction_house_program@,
            token_program: self.token_program@,
            associated_token_program: self.associated_token_program@,
        }
    }
}

impl ProgramContextV {
    /// Program ids are 32-byte addresses.
    pub open spec fn wf(self) -> bool {
        self.rewards_program.len() == 32 && self.auction_house_program.len() == 32
            && self.associated_token_program.len() == 32
    }
}

/// Key of a rewardable collection: the (reward center, collection) pair.
pub open spec fn collection_key(c: RewardableCollectionV) -> (Seq<u8>, Seq<u8>) {
    (c.reward_center, c.collection)
}

/// Key of a listing: the seed tuple binding seller, asset and collection.
pub open spec fn listing_key(l: ListingV) -> (Seq<u8>, Seq<u8>, Seq<u8>) {
    (l.wallet, l.metadata, l.rewardable_collection)
}

/// Key of an offer: seller, asset, collection, and the priced trade the bid
/// names. Distinct prices derive distinct trade states, so offers differing
/// only in price coexist.
pub open spec fn offer_key(o: OfferV) -> (Seq<u8>, Seq<u8>, Seq<u8>, u64, u64) {
    (o.wallet, o.metadata, o.rewardable_collection, o.buyer_price, o.token_size)
}

/// Model of the local ledger.
pub struct LedgerV {
    pub reward_centers: Seq<RewardCenterV>,
    pub collections: Seq<RewardableCollectionV>,
    pub listings: Seq<ListingV>,
    pub offers: Seq<OfferV>,
}

impl LedgerV {
    /// Each entity class is keyed uniquely: the ledger mirrors a chain state
    /// where each derived address holds at most one account.
    pub open spec fn wf(self) -> bool {
        (forall|i: int, j: int|
            0 <= i < j < self.reward_centers.len() ==> self.reward_centers[i].auction_house
                != self.reward_centers[j].auction_house) && (forall|i: int, j: int|
            0 <= i < j < self.collections.len() ==> collection_key(self.collections[i])
                != collection_key(self.collections[j])) && (forall|i: int, j: int|
            0 <= i < j < self.listings.len() ==> listing_key(self.listings[i]) != listing_key(
                self.listings[j],
            )) && (forall|i: int, j: int|
            0 <= i < j < self.offers.len() ==> offer_key(self.offers[i]) != offer_key(
                self.offers[j],
            ))
    }
}

/// A reward center for this auction house is already on the books.
pub open spec fn has_center(centers: Seq<RewardCenterV>, auction_house: Seq<u8>) -> bool {
    exists|i: int| 0 <= i < centers.len() && centers[i].auction_house == auction_house
}

/// A rewardable collection under this key is already on the books.
pub open spec fn has_collection(
    collections: Seq<RewardableCollectionV>,
    reward_center: Seq<u8>,
    collection: Seq<u8>,
) -> bool {
    exists|i: int|
        0 <= i < collections.len() && collection_key(collections[i]) == (reward_center, collection)
}

/// A listing under this key is already on the books.
pub open spec fn has_listing(
    listings: Seq<ListingV>,
    wallet: Seq<u8>,
    metadata: Seq<u8>,
    rewardable_collection: Seq<u8>,
) -> bool {
    exists|i: int|
        0 <= i < listings.len() && listing_key(listings[i]) == (
            wallet,
            metadata,
            rewardable_collection,
        )
}

/// An offer under this key is already on the books.
pub open spec fn has_offer(
    offers: Seq<OfferV>,
    wallet: Seq<u8>,
    metadata: Seq<u8>,
    rewardable_collection: Seq<u8>,
    buyer_price: u64,
    token_size: u64,
) -> bool {
    exists|i: int|
        0 <= i < offers.len() && offer_key(offers[i]) == (
            wallet,
            metadata,
            rewardable_collection,
            buyer_price,
            token_size,
        )
}

/// The reward center keyed by this auction house, when one is on the books.
pub open spec fn center_of(centers: Seq<RewardCenterV>, auction_house: Seq<u8>) -> RewardCenterV {
    centers[choose|i: int| 0 <= i < centers.len() && centers[i].auction_house == auction_house]
}

/// With unique keys, the center found at an index is the center of its key.
pub proof fn lemma_center_at_index(centers: Seq<RewardCenterV>, auction_house: Seq<u8>, i: int)
    requires
        forall|a: int, b: int|
            0 <= a < b < centers.len() ==> centers[a].auction_house != centers[b].auction_house,
        0 <= i < centers.len(),
        centers[i].auction_house == auction_house,
    ensures
        center_of(centers, auction_house) == centers[i],
{
    let at = choose|j: int|
        0 <= j < centers.len() && centers[j].auction_house == auction_house;
    assert(0 <= at < centers.len() && centers[at].auction_house == auction_house);
    if at != i {
        if at < i {
            assert(centers[at].auction_house != centers[i].auction_house);
        } else {
            assert(centers[i].auction_house != centers[at].auction_house);
        }
        assert(false);
    }
}

/// The local ledger: every entity the rewards layer itself keeps books on.
pub struct RewardsLedger {
    pub reward_centers: Vec<RewardCenter>,
    pub collections: Vec<RewardableCollection>,
    pub listings: Vec<Listing>,
    pub offers: Vec<Offer>,
}

impl View for RewardsLedger {
    type V = LedgerV;

    open spec fn view(&self) -> LedgerV {
        LedgerV {
            reward_centers: self.reward_centers.deep_view(),
            collections: self.collections.deep_view(),
            listings: self.listings.deep_view(),
            offers: self.offers.deep_view(),
        }
    }
}

impl RewardsLedger {
    /// The ledger's key-uniqueness invariant, at the model level.
    pub open spec fn wf(&self) -> bool {
        self@.wf()
    }

    /// An empty ledger.
    pub fn new() -> (r: RewardsLedger)
        ensures
            r.wf(),
            r@.reward_centers.len() == 0,
            r@.collections.len() == 0,
            r@.listings.len() == 0,
            r@.offers.len() == 0,
    {
        RewardsLedger {
            reward_centers: Vec::new(),
            collections: Vec::new(),
            listings: Vec::new(),
            offers: Vec::new(),
        }
    }
}

/// Finds the reward center keyed by this auction house, if any.
pub fn find_center(centers: &Vec<RewardCenter>, auction_house: &Vec<u8>) -> (r: Option<usize>)
    ensures
        match r {
            Some(i) => i < centers.deep_view().len() && centers.deep_view()[i as int].auction_house
                == auction_house@,
            None => !has_center(centers.deep_view(), auction_house@),
        },
{
    let n = centers.len();
    let mut i: usize = 0;
    while i < n
        invariant
            n == centers@.len(),
            0 <= i <= n,
            forall|k: int| 0 <= k < i ==> centers.deep_view()[k].auction_house != auction_house@,
        decreases n - i,
    {
        if crate::bytes_eq(&centers[i].auction_house, auction_house) {
            return Some(i);
        }
        i += 1;
    }
    None
}

/// Finds the rewardable collection keyed by this pair, if any.
pub fn find_collection(
    collections: &Vec<RewardableCollection>,
    reward_center: &Vec<u8>,
    collection: &Vec<u8>,
) -> (r: Option<usize>)
    ensures
        match r {
            Some(i) => i < collections.deep_view().len() && collection_key(
                collections.deep_view()[i as int],
            ) == (reward_center@, collection@),
            None => !has_collection(collections.deep_view(), reward_center@, collection@),
        },
{
    let n = collections.len();
    let mut i: usize = 0;
    while i < n
        invariant
            n == collections@.len(),
            0 <= i <= n,
            forall|k: int|
                0 <= k < i ==> collection_key(collections.deep_view()[k]) != (
                    reward_center@,
                    collection@,
                ),
        decreases n - i,
    {
        if crate::bytes_eq(&collections[i].reward_center, reward_center) && crate::bytes_eq(
            &collections[i].collection,
            collection,
        ) {
            return Some(i);
        }
        i += 1;
    }
    None
}

/// Finds the listing keyed by this tuple, if any.
pub fn find_listing(
    listings: &Vec<Listing>,
    wallet: &Vec<u8>,
    metadata: &Vec<u8>,
    rewardable_collection: &Vec<u8>,
) -> (r: Option<usize>)
    ensures
        match r {
            Some(i) => i < listings.deep_view().len() && listing_key(
                listings.deep_view()[i as int],
            ) == (wallet@, metadata@, rewardable_collection@),
            None => !has_listing(
                listings.deep_view(),
                wallet@,
                metadata@,
                rewardable_collection@,
            ),
        },
{
    let n = listings.len();
    let mut i: usize = 0;
    while i < n
        invariant
            n == listings@.len(),
            0 <= i <= n,
            forall|k: int|
                0 <= k < i ==> listing_key(listings.deep_view()[k]) != (
                    wallet@,
                    metadata@,
                    rewardable_collection@,
                ),
        decreases n - i,
    {
        if crate::bytes_eq(&listings[i].wallet, wallet) && crate::bytes_eq(
            &listings[i].metadata,
            metadata,
        ) && crate::bytes_eq(&listings[i].rewardable_collection, rewardable_collection) {
            return Some(i);
        }
        i += 1;
    }
    None
}

/// Finds the offer keyed by this tuple, if any.
pub fn find_offer(
    offers: &Vec<Offer>,
    wallet: &Vec<u8>,
    metadata: &Vec<u8>,
    rewardable_collection: &Vec<u8>,
    buyer_price: u64,
    token_size: u64,
) -> (r: Option<usize>)
    ensures
        match r {
            Some(i) => i < offers.deep_view().len() && offer_key(offers.deep_view()[i as int]) == (
                wallet@,
                metadata@,
                rewardable_collection@,
                buyer_price,
                token_size,
            ),
            None => !has_offer(
                offers.deep_view(),
                wallet@,
                metadata@,
                rewardable_collection@,
                buyer_price,
                token_size,
            ),
        },
{
    let n = offers.len();
    let mut i: usize = 0;
    while i < n
        invariant
            n == offers@.len(),
            0 <= i <= n,
            forall|k: int|
                0 <= k < i ==> offer_key(offers.deep_view()[k]) != (
                    wallet@,
                    metadata@,
                    rewardable_collection@,
                    buyer_price,
                    token_size,
                ),
        decreases n - i,
    {
        if crate::bytes_eq(&offers[i].wallet, wallet) && crate::bytes_eq(
            &offers[i].metadata,
            metadata,
        ) && crate::bytes_eq(&offers[i].rewardable_collection, rewardable_collection)
            && offers[i].buyer_price == buyer_price && offers[i].token_size == token_size {
            return Some(i);
        }
        i += 1;
    }
    None
}

} // verus!
