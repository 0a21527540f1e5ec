//! The delegated-call surface of the external auction engine, and the
//! signing context the reward center signs with.
//!
//! A lifecycle operation never performs the value-bearing state change
//! itself: it validates, mutates the local ledger, and returns exactly one
//! request describing the delegated call the runtime must issue atomically
//! with the local mutation.

use vstd::prelude::*;
use crate::pda::reward_center_seeds;

verus! {

/// The capability the reward center signs delegated calls with: the seed
/// tuple of its own derived address plus the canonical bump. Scoped to the
/// one auction house instance the center was created against.
#[derive(Debug)]
pub struct SigningContext {
    pub auction_house: Vec<u8>,
    pub bump: u8,
}

/// Model of a signing context.
pub struct SigningContextV {
    pub auction_house: Seq<u8>,
    pub bump: u8,
}

impl View for SigningContext {
    type V = SigningContextV;

    open spec fn view(&self) -> SigningContextV {
        SigningContextV { auction_house: self.auction_house@, bump: self.bump }
    }
}

impl SigningContextV {
    /// The full seed tuple the signature proves: the reward center's seeds
    /// with the bump appended.
    pub open spec fn seeds(self) -> Seq<Seq<u8>> {
        reward_center_seeds(self.auction_house).push(seq![self.bump])
    }
}

impl SigningContext {
    /// Builds the seed tuple the runtime hands to the signed invocation.
    pub fn seed_tuple(&self) -> (r: Vec<Vec<u8>>)
        ensures
            r.deep_view() == self@.seeds(),
    {
        let mut seeds: Vec<Vec<u8>> = Vec::new();
        crate::pda::push_seed(&mut seeds, crate::pda::tag_bytes("reward_center"));
        crate::pda::push_seed(&mut seeds, crate::pda::copy_bytes(&self.auction_house));
        let mut bump_seed: Vec<u8> = Vec::new();
        bump_seed.push(self.bump);
        proof {
            assert(bump_seed@ =~= seq![self.bump]);
        }
        crate::pda::push_seed(&mut seeds, bump_seed);
        proof {
            assert(seeds.deep_view() =~= self@.seeds());
        }
        seeds
    }
}

/// One delegated call into the external auction engine, with the exact
/// account set and argument list its call contract fixes.
#[derive(Debug)]
pub enum DelegatedCall {
    /// Post a sell order through the delegated authority.
    Sell {
        wallet: Vec<u8>,
        token_account: Vec<u8>,
        metadata: Vec<u8>,
        seller_trade_state: Vec<u8>,
        free_seller_trade_state: Vec<u8>,
        program_as_signer: Vec<u8>,
        price: u64,
        token_size: u64,
        trade_state_bump: u8,
        free_trade_state_bump: u8,
        program_as_signer_bump: u8,
    },
    /// Cancel a standing order's trade state.
    Cancel { wallet: Vec<u8>, token_account: Vec<u8>, trade_state: Vec<u8>, price: u64, token_size: u64 },
    /// Post a public bid and escrow the committed funds.
    PublicBuy {
        wallet: Vec<u8>,
        payment_account: Vec<u8>,
        transfer_authority: Vec<u8>,
        treasury_mint: Vec<u8>,
        token_account: Vec<u8>,
        metadata: Vec<u8>,
        escrow_payment_account: Vec<u8>,
        buyer_trade_state: Vec<u8>,
        trade_state_bump: u8,
        escrow_payment_bump: u8,
        buyer_price: u64,
        token_size: u64,
    },
    /// Close a public bid, refunding unspent escrow to the receipt account.
    CloseBuy {
        wallet: Vec<u8>,
        payment_account: Vec<u8>,
        transfer_authority: Vec<u8>,
        treasury_mint: Vec<u8>,
        token_account: Vec<u8>,
        metadata: Vec<u8>,
        escrow_payment_account: Vec<u8>,
        buyer_trade_state: Vec<u8>,
        receipt_account: Vec<u8>,
        trade_state_bump: u8,
        escrow_payment_bump: u8,
        buyer_price: u64,
        token_size: u64,
    },
}

/// Model of a delegated call.
pub enum DelegatedCallV {
    Sell {
        wallet: Seq<u8>,
        token_account: Seq<u8>,
        metadata: Seq<u8>,
        seller_trade_state: Seq<u8>,
        free_seller_trade_state: Seq<u8>,
        program_as_signer: Seq<u8>,
        price: u64,
        token_size: u64,
        trade_state_bump: u8,
        free_trade_state_bump: u8,
        program_as_signer_bump: u8,
    },
    Cancel { wallet: Seq<u8>, token_account: Seq<u8>, trade_state: Seq<u8>, price: u64, token_size: u64 },
    PublicBuy {
        wallet: Seq<u8>,
        payment_account: Seq<u8>,
        transfer_authority: Seq<u8>,
        treasury_mint: Seq<u8>,
        token_account: Seq<u8>,
        metadata: Seq<u8>,
        escrow_payment_account: Seq<u8>,
        buyer_trade_state: Seq<u8>,
        trade_state_bump: u8,
        escrow_payment_bump: u8,
        buyer_price: u64,
        token_size: u64,
    },
    CloseBuy {
        wallet: Seq<u8>,
        payment_account: Seq<u8>,
        transfer_authority: Seq<u8>,
        treasury_mint: Seq<u8>,
        token_account: Seq<u8>,
        metadata: Seq<u8>,
        escrow_payment_account: Seq<u8>,
        buyer_trade_state: Seq<u8>,
        receipt_account: Seq<u8>,
        trade_state_bump: u8,
        escrow_payment_bump: u8,
        buyer_price: u64,
        token_size: u64,
    },
}

impl View for DelegatedCall {
    type V = DelegatedCallV;

    open spec fn view(&self) -> DelegatedCallV {
        match self {
            DelegatedCall::Sell {
                wallet,
                token_account,
                metadata,
                seller_trade_state,
                free_seller_trade_state,
                program_as_signer,
                price,
                token_size,
                trade_state_bump,
                free_trade_state_bump,
                program_as_signer_bump,
            } => DelegatedCallV::Sell {
                wallet: wallet@,
                token_account: token_account@,
                metadata: metadata@,
                seller_trade_state: seller_trade_state@,
                free_seller_trade_state: free_seller_trade_state@,
                program_as_signer: program_as_signer@,
                price: *price,
                token_size: *token_size,
                trade_state_bump: *trade_state_bump,
                free_trade_state_bump: *free_trade_state_bump,
                program_as_signer_bump: *program_as_signer_bump,
            },
            DelegatedCall::Cancel { wallet, token_account, trade_state, price, token_size } => DelegatedCallV::Cancel {
                wallet: wallet@,
                token_account: token_account@,
                trade_state: trade_state@,
                price: *price,
                token_size: *token_size,
            },
            DelegatedCall::PublicBuy {
                wallet,
                payment_account,
                transfer_authority,
                treasury_mint,
                token_account,
                metadata,
                escrow_payment_account,
                buyer_trade_state,
                trade_state_bump,
                escrow_payment_bump,
                buyer_price,
                token_size,
            } => DelegatedCallV::PublicBuy {
                wallet: wallet@,
                payment_account: payment_account@,
                transfer_authority: transfer_authority@,
                treasury_mint: treasury_mint@,
                token_account: token_account@,
                metadata: metadata@,
                escrow_payment_account: escrow_payment_account@,
                buyer_trade_state: buyer_trade_state@,
                trade_state_bump: *trade_state_bump,
                escrow_payment_bump: *escrow_payment_bump,
                buyer_price: *buyer_price,
                token_size: *token_size,
            },
            DelegatedCall::CloseBuy {
                wallet,
                payment_account,
                transfer_authority,
                treasury_mint,
                token_account,
                metadata,
                escrow_payment_account,
                buyer_trade_state,
                receipt_account,
                trade_state_bump,
                escrow_payment_bump,
                buyer_price,
                token_size,
            } => DelegatedCallV::CloseBuy {
                wallet: wallet@,
                payment_account: payment_account@,
                transfer_authority: transfer_authority@,
                treasury_mint: treasury_mint@,
                token_account: token_account@,
                metadata: metadata@,
                escrow_payment_account: escrow_payment_account@,
                buyer_trade_state: buyer_trade_state@,
                receipt_account: receipt_account@,
                trade_state_bump: *trade_state_bump,
                escrow_payment_bump: *escrow_payment_bump,
                buyer_price: *buyer_price,
                token_size: *token_size,
            },
        }
    }
}

/// The one delegated call a lifecycle operation issues, with the signing
/// context it is signed under.
#[derive(Debug)]
pub struct EngineRequest {
    pub signer: SigningContext,
    pub call: DelegatedCall,
}

/// Model of an engine request.
pub struct EngineRequestV {
    pub signer: SigningContextV,
    pub call: DelegatedCallV,
}

impl View for EngineRequest {
    type V = EngineRequestV;

    open spec fn view(&self) -> EngineRequestV {
        EngineRequestV { signer: self.signer@, call: self.call@ }
    }
}

} // verus!
