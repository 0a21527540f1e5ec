//! The membership-token registry: stores, selling resources, markets and
//! trade histories. A simpler bookkeeping subsystem beside the rewards
//! core: its operations validate locally and hand the one token move they
//! need to the runtime, and its records are located by the same derivation
//! scheme under its own program id.

use vstd::prelude::*;
use vstd::string::StringSliceAdditionalSpecFns;
use vstd::utf8::encode_utf8;
use crate::pda::{addr_bump_matches, addr_matches, check_addr, check_addr_bump, copy_bytes,
    derives, find_program_address, pda_of, push_seed, tag_bytes};

verus! {

/// Longest store name or description, in bytes.
pub const STRING_DEFAULT_SIZE: usize = 20;

/// Why a membership operation was rejected.
#[derive(Clone, Copy, Debug, PartialEq, Eq, Structural)]
pub enum ErrorCode {
    /// No valid signer present.
    NoValidSignerPresent,
    /// Some string variable is longer than allowed.
    StringIsTooLong,
    /// Provided supply is greater than available.
    SupplyIsGtThanAvailable,
    /// Supply is not provided.
    SupplyIsNotProvided,
    /// Derived key invalid.
    DerivedKeyInvalid,
}

/// Seed tuple of the account holding a market's treasury.
pub open spec fn treasury_owner_seeds(
    treasury_mint: Seq<u8>,
    selling_resource: Seq<u8>,
) -> Seq<Seq<u8>> {
    seq!["holder".spec_bytes(), treasury_mint, selling_resource]
}

/// Seed tuple of the account owning a selling resource's token vault.
pub open spec fn vault_owner_seeds(resource_mint: Seq<u8>, store: Seq<u8>) -> Seq<Seq<u8>> {
    seq!["mt_vault".spec_bytes(), resource_mint, store]
}

/// Seed tuple of a wallet's per-market trade history record.
pub open spec fn trade_history_seeds(wallet: Seq<u8>, market: Seq<u8>) -> Seq<Seq<u8>> {
    seq!["history".spec_bytes(), wallet, market]
}

/// Seed tuple of an asset's master edition record, fixed by the external
/// token-metadata program's layout.
pub open spec fn master_edition_seeds(
    metadata_program: Seq<u8>,
    resource_mint: Seq<u8>,
) -> Seq<Seq<u8>> {
    seq!["metadata".spec_bytes(), metadata_program, resource_mint, "edition".spec_bytes()]
}

/// Returns the treasury owner address and bump seed.
pub fn find_treasury_owner_address(
    treasury_mint: &Vec<u8>,
    selling_resource: &Vec<u8>,
    program_id: &Vec<u8>,
) -> (r: Option<(Vec<u8>, u8)>)
    requires
        program_id@.len() == 32,
    ensures
        derives(r, pda_of(treasury_owner_seeds(treasury_mint@, selling_resource@), program_id@)),
{
    let mut seeds: Vec<Vec<u8>> = Vec::new();
    push_seed(&mut seeds, tag_bytes("holder"));
    push_seed(&mut seeds, copy_bytes(treasury_mint));
    push_seed(&mut seeds, copy_bytes(selling_resource));
    proof {
        assert(seeds.deep_view() =~= treasury_owner_seeds(treasury_mint@, selling_resource@));
    }
    find_program_address(&seeds, program_id)
}

/// Returns the vault owner address and bump seed.
pub fn find_vault_owner_address(
    resource_mint: &Vec<u8>,
    store: &Vec<u8>,
    program_id: &Vec<u8>,
) -> (r: Option<(Vec<u8>, u8)>)
    requires
        program_id@.len() == 32,
    ensures
        derives(r, pda_of(vault_owner_seeds(resource_mint@, store@), program_id@)),
{
    let mut seeds: Vec<Vec<u8>> = Vec::new();
    push_seed(&mut seeds, tag_bytes("mt_vault"));
    push_seed(&mut seeds, copy_bytes(resource_mint));
    push_seed(&mut seeds, copy_bytes(store));
    proof {
        assert(seeds.deep_view() =~= vault_owner_seeds(resource_mint@, store@));
    }
    find_program_address(&seeds, program_id)
}

/// Returns the trade history address and bump seed.
pub fn find_trade_history_address(
    wallet: &Vec<u8>,
    market: &Vec<u8>,
    program_id: &Vec<u8>,
) -> (r: Option<(Vec<u8>, u8)>)
    requires
        program_id@.len() == 32,
    ensures
        derives(r, pda_of(trade_history_seeds(wallet@, market@), program_id@)),
{
    let mut seeds: Vec<Vec<u8>> = Vec::new();
    push_seed(&mut seeds, tag_bytes("history"));
    push_seed(&mut seeds, copy_bytes(wallet));
    push_seed(&mut seeds, copy_bytes(market));
    proof {
        assert(seeds.deep_view() =~= trade_history_seeds(wallet@, market@));
    }
    find_program_address(&seeds, program_id)
}

/// An account together with whether it signed the unit of work.
#[derive(Debug)]
pub struct SignerAccount {
    pub key: Vec<u8>,
    pub is_signer: bool,
}

/// A named sales venue run by one admin.
#[derive(Debug)]
pub struct Store {
    pub admin: Vec<u8>,
    pub name: String,
    pub description: String,
}

/// The account pair a store creation names.
pub struct CreateStore {
    pub admin: SignerAccount,
    pub store: SignerAccount,
}

/// Creates a store: both the admin and the new store account must sign, and
/// the name and description must fit the fixed record size, in bytes.
pub fn create_store(accounts: &CreateStore, name: String, description: String) -> (r: Result<
    Store,
    ErrorCode,
>)
    ensures
        !(accounts.admin.is_signer && accounts.store.is_signer) <==> r == Err::<
            Store,
            ErrorCode,
        >(ErrorCode::NoValidSignerPresent),
        accounts.admin.is_signer && accounts.store.is_signer && (encode_utf8(name@).len()
            > STRING_DEFAULT_SIZE || encode_utf8(description@).len() > STRING_DEFAULT_SIZE) <==> r
            == Err::<Store, ErrorCode>(ErrorCode::StringIsTooLong),
        match r {
            Ok(store) => store.admin@ == accounts.admin.key@ && store.name@ == name@
                && store.description@ == description@ && encode_utf8(name@).len()
                <= STRING_DEFAULT_SIZE && encode_utf8(description@).len() <= STRING_DEFAULT_SIZE,
            Err(e) => e == ErrorCode::NoValidSignerPresent || e == ErrorCode::StringIsTooLong,
        },
{
    if !accounts.admin.is_signer || !accounts.store.is_signer {
        return Err(ErrorCode::NoValidSignerPresent);
    }
    if name.as_str().as_bytes().len() > STRING_DEFAULT_SIZE
        || description.as_str().as_bytes().len() > STRING_DEFAULT_SIZE {
        return Err(ErrorCode::StringIsTooLong);
    }
    Ok(Store { admin: copy_bytes(&accounts.admin.key), name, description })
}

/// Lifecycle of a selling resource.
#[derive(Clone, Copy, Debug, PartialEq, Eq, Structural)]
pub enum SellingResourceState {
    Uninitialized,
    Created,
    InUse,
    Exhausted,
    Stopped,
}

/// An asset put up for sale through a store, with its supply bookkeeping.
#[derive(Debug)]
pub struct SellingResource {
    pub store: Vec<u8>,
    pub owner: Vec<u8>,
    pub resource: Vec<u8>,
    pub vault: Vec<u8>,
    pub vault_owner: Vec<u8>,
    pub supply: u64,
    pub max_supply: Option<u64>,
    pub state: SellingResourceState,
}

/// Lifecycle of a market.
#[derive(Clone, Copy, Debug, PartialEq, Eq, Structural)]
pub enum MarketState {
    Uninitialized,
    Created,
    Active,
    Ended,
}

/// A market selling one resource for one treasury mint.
pub struct Market {
    pub store: Vec<u8>,
    pub selling_resource: Vec<u8>,
    pub treasury_mint: Vec<u8>,
    pub treasury_holder: Vec<u8>,
    pub treasury_owner: Vec<u8>,
    pub owner: Vec<u8>,
    pub name: String,
    pub description: String,
    pub mutable: bool,
    pub price: u64,
    pub pieces_in_one_wallet: Option<u64>,
    pub start_date: u64,
    pub end_date: Option<u64>,
    pub state: MarketState,
}

/// How much one wallet has already bought on one market.
pub struct TradeHistory {
    pub market: Vec<u8>,
    pub wallet: Vec<u8>,
    pub already_bought: u64,
}

/// What the subsystem reads of an asset's external master edition record.
#[derive(Debug)]
pub struct MasterEdition {
    pub key: Vec<u8>,
    pub max_supply: Option<u64>,
    pub supply: u64,
}

/// The one token move initializing a selling resource delegates to the
/// runtime: the master token leaves the admin's resource account for the
/// vault.
#[derive(Debug)]
pub struct TokenTransfer {
    pub from: Vec<u8>,
    pub to: Vec<u8>,
    pub authority: Vec<u8>,
    pub amount: u64,
}

/// The account set a selling resource initialization names.
pub struct InitSellingResource {
    pub store_key: Vec<u8>,
    pub store: Store,
    pub admin: SignerAccount,
    pub selling_resource_owner: Vec<u8>,
    pub resource_mint: Vec<u8>,
    pub master_edition: MasterEdition,
    pub vault: SignerAccount,
    pub vault_owner: Vec<u8>,
    pub resource_token: Vec<u8>,
}

impl InitSellingResource {
    /// What the runtime has already validated when this operation runs: the
    /// store belongs to the signing admin and the vault signed.
    pub open spec fn wf(&self) -> bool {
        self.store.admin@ == self.admin.key@ && self.admin.is_signer && self.vault.is_signer
    }

    /// The caps the external master edition record imposes never underflow:
    /// an edition's circulating supply does not exceed its cap.
    pub open spec fn supply_wf(&self) -> bool {
        match self.master_edition.max_supply {
            Option::Some(cap) => self.master_edition.supply <= cap,
            Option::None => true,
        }
    }
}

/// The supply the new selling resource is capped at: under an uncapped
/// master edition the caller's choice stands; under a capped one a supply
/// must be given and must fit what is still available.
pub open spec fn spec_resource_supply(
    edition: Option<u64>,
    circulating: u64,
    requested: Option<u64>,
) -> Result<Option<u64>, ErrorCode> {
    match edition {
        Option::None => Ok(requested),
        Option::Some(cap) => match requested {
            Option::None => Err(ErrorCode::SupplyIsNotProvided),
            Option::Some(wanted) => if wanted > cap - circulating {
                Err(ErrorCode::SupplyIsGtThanAvailable)
            } else {
                Ok(Some(wanted))
            },
        },
    }
}

/// Initializes a selling resource: checks the master edition record is the
/// one derived for the resource mint, checks the vault owner against its
/// canonical derivation and bump, bounds the requested supply by what the
/// master edition still allows, and hands back the new record together with
/// the one delegated token move into the vault.
pub fn init_selling_resource(
    accounts: &InitSellingResource,
    membership_program: &Vec<u8>,
    metadata_program: &Vec<u8>,
    vault_owner_bump: u8,
    max_supply: Option<u64>,
) -> (r: Result<(SellingResource, TokenTransfer), ErrorCode>)
    requires
        accounts.wf(),
        accounts.supply_wf(),
        membership_program@.len() == 32,
        metadata_program@.len() == 32,
    ensures
        (!addr_bump_matches(
            pda_of(vault_owner_seeds(accounts.resource_mint@, accounts.store_key@), membership_program@),
            accounts.vault_owner@,
            vault_owner_bump,
        ) || !addr_matches(
            pda_of(master_edition_seeds(metadata_program@, accounts.resource_mint@), metadata_program@),
            accounts.master_edition.key@,
        )) <==> r == Err::<(SellingResource, TokenTransfer), ErrorCode>(ErrorCode::DerivedKeyInvalid),
        match r {
            Ok(created) => {
                &&& addr_matches(
                    pda_of(
                        master_edition_seeds(metadata_program@, accounts.resource_mint@),
                        metadata_program@,
                    ),
                    accounts.master_edition.key@,
                )
                &&& spec_resource_supply(
                    accounts.master_edition.max_supply,
                    accounts.master_edition.supply,
                    max_supply,
                ) == Ok::<Option<u64>, ErrorCode>(created.0.max_supply)
                &&& created.0.store@ == accounts.store_key@
                &&& created.0.owner@ == accounts.selling_resource_owner@
                &&& created.0.resource@ == accounts.resource_mint@
                &&& created.0.vault@ == accounts.vault.key@
                &&& created.0.vault_owner@ == accounts.vault_owner@
                &&& created.0.supply == 0
                &&& created.0.state == SellingResourceState::Created
                &&& created.1.from@ == accounts.resource_token@
                &&& created.1.to@ == accounts.vault.key@
                &&& created.1.authority@ == accounts.admin.key@
                &&& created.1.amount == 1
            },
            Err(e) => e == ErrorCode::DerivedKeyInvalid || spec_resource_supply(
                accounts.master_edition.max_supply,
                accounts.master_edition.supply,
                max_supply,
            ) == Err::<Option<u64>, ErrorCode>(e),
        },
{
    let derived_vault_owner = find_vault_owner_address(
        &accounts.resource_mint,
        &accounts.store_key,
        membership_program,
    );
    if !check_addr_bump(&derived_vault_owner, &accounts.vault_owner, vault_owner_bump) {
        return Err(ErrorCode::DerivedKeyInvalid);
    }
    let mut seeds: Vec<Vec<u8>> = Vec::new();
    push_seed(&mut seeds, tag_bytes("metadata"));
    push_seed(&mut seeds, copy_bytes(metadata_program));
    push_seed(&mut seeds, copy_bytes(&accounts.resource_mint));
    push_seed(&mut seeds, tag_bytes("edition"));
    proof {
        assert(seeds.deep_view() =~= master_edition_seeds(
            metadata_program@,
            accounts.resource_mint@,
        ));
    }
    let derived_edition = find_program_address(&seeds, metadata_program);
    if !check_addr(&derived_edition, &accounts.master_edition.key) {
        return Err(ErrorCode::DerivedKeyInvalid);
    }
    let actual_max_supply: Option<u64> = match accounts.master_edition.max_supply {
        None => max_supply,
        Some(cap) => {
            match max_supply {
                None => {
                    return Err(ErrorCode::SupplyIsNotProvided);
                },
                Some(wanted) => {
                    let available = cap - accounts.master_edition.supply;
                    if wanted > available {
                        return Err(ErrorCode::SupplyIsGtThanAvailable);
                    }
                    Some(wanted)
                },
            }
        },
    };
    let resource = SellingResource {
        store: copy_bytes(&accounts.store_key),
        owner: copy_bytes(&accounts.selling_resource_owner),
        resource: copy_bytes(&accounts.resource_mint),
        vault: copy_bytes(&accounts.vault.key),
        vault_owner: copy_bytes(&accounts.vault_owner),
        supply: 0,
        max_supply: actual_max_supply,
        state: SellingResourceState::Created,
    };
    let transfer = TokenTransfer {
        from: copy_bytes(&accounts.resource_token),
        to: copy_bytes(&accounts.vault.key),
        authority: copy_bytes(&accounts.admin.key),
        amount: 1,
    };
    Ok((resource, transfer))
}

} // verus!
