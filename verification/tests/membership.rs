use listing_rewards::membership::{
    create_store, find_trade_history_address, find_treasury_owner_address,
    find_vault_owner_address, init_selling_resource, CreateStore, ErrorCode, InitSellingResource,
    MasterEdition, SignerAccount, Store,
};

fn addr(tag: u8) -> Vec<u8> {
    let mut v = vec![tag; 32];
    v[0] = tag.wrapping_add(1);
    v
}

fn signer(tag: u8) -> SignerAccount {
    SignerAccount { key: addr(tag), is_signer: true }
}

#[test]
fn membership_derivations_match_the_runtime() {
    let program = addr(10);
    let program_key = solana_program::pubkey::Pubkey::new_from_array(
        program.as_slice().try_into().unwrap(),
    );
    let a = addr(11);
    let b = addr(12);

    let (treasury, treasury_bump) =
        find_treasury_owner_address(&a, &b, &program).expect("derivation exists");
    let (expected, expected_bump) = solana_program::pubkey::Pubkey::find_program_address(
        &[b"holder", a.as_slice(), b.as_slice()],
        &program_key,
    );
    assert_eq!(treasury, expected.to_bytes().to_vec());
    assert_eq!(treasury_bump, expected_bump);

    let (vault, _) = find_vault_owner_address(&a, &b, &program).expect("derivation exists");
    let (expected, _) = solana_program::pubkey::Pubkey::find_program_address(
        &[b"mt_vault", a.as_slice(), b.as_slice()],
        &program_key,
    );
    assert_eq!(vault, expected.to_bytes().to_vec());

    let (history, _) = find_trade_history_address(&a, &b, &program).expect("derivation exists");
    let (expected, _) = solana_program::pubkey::Pubkey::find_program_address(
        &[b"history", a.as_slice(), b.as_slice()],
        &program_key,
    );
    assert_eq!(history, expected.to_bytes().to_vec());
}

#[test]
fn create_store_success() {
    let accounts = CreateStore { admin: signer(20), store: signer(21) };
    let store: Store = create_store(
        &accounts,
        String::from("123456789_123456789_"),
        String::from("123456789_123456789_"),
    )
    .expect("store creation succeeds");
    assert_eq!(store.admin, accounts.admin.key);
    assert_eq!(store.name, "123456789_123456789_");
    assert_eq!(store.description, "123456789_123456789_");
}

#[test]
fn failure_name_is_long() {
    let accounts = CreateStore { admin: signer(20), store: signer(21) };
    let outcome = create_store(
        &accounts,
        String::from("123456789_123456789_12345"),
        String::from("123456789_123456789_"),
    );
    assert_eq!(outcome.unwrap_err(), ErrorCode::StringIsTooLong);
}

#[test]
fn failure_description_is_long() {
    let accounts = CreateStore { admin: signer(20), store: signer(21) };
    let outcome = create_store(
        &accounts,
        String::from("123456789_123456789_"),
        String::from("123456789_123456789_12345"),
    );
    assert_eq!(outcome.unwrap_err(), ErrorCode::StringIsTooLong);
}

#[test]
fn failure_store_did_not_sign() {
    let accounts = CreateStore {
        admin: signer(20),
        store: SignerAccount { key: addr(21), is_signer: false },
    };
    let outcome = create_store(&accounts, String::from("TEST"), String::from("TST"));
    assert_eq!(outcome.unwrap_err(), ErrorCode::NoValidSignerPresent);
}

fn selling_resource_accounts(
    membership_program: &Vec<u8>,
    metadata_program: &Vec<u8>,
    edition_max_supply: Option<u64>,
    edition_supply: u64,
) -> (InitSellingResource, u8) {
    let store_key = addr(30);
    let admin = signer(31);
    let resource_mint = addr(32);
    let store = Store {
        admin: admin.key.clone(),
        name: String::from("TEST"),
        description: String::from("TST"),
    };
    let (vault_owner, vault_owner_bump) =
        find_vault_owner_address(&resource_mint, &store_key, membership_program)
            .expect("derivation exists");
    let metadata_key = solana_program::pubkey::Pubkey::new_from_array(
        metadata_program.as_slice().try_into().unwrap(),
    );
    let (master_edition_key, _) = solana_program::pubkey::Pubkey::find_program_address(
        &[b"metadata", metadata_program.as_slice(), resource_mint.as_slice(), b"edition"],
        &metadata_key,
    );
    let accounts = InitSellingResource {
        store_key,
        store,
        admin,
        selling_resource_owner: addr(33),
        resource_mint,
        master_edition: MasterEdition {
            key: master_edition_key.to_bytes().to_vec(),
            max_supply: edition_max_supply,
            supply: edition_supply,
        },
        vault: signer(34),
        vault_owner,
        resource_token: addr(35),
    };
    (accounts, vault_owner_bump)
}

#[test]
fn init_selling_resource_success() {
    let membership_program = addr(10);
    let metadata_program = addr(11);
    let (accounts, vault_owner_bump) =
        selling_resource_accounts(&membership_program, &metadata_program, Some(100), 0);
    let (resource, transfer) = init_selling_resource(
        &accounts,
        &membership_program,
        &metadata_program,
        vault_owner_bump,
        Some(100),
    )
    .expect("initialization succeeds");
    assert_eq!(resource.supply, 0);
    assert_eq!(resource.max_supply, Some(100));
    assert_eq!(resource.store, accounts.store_key);
    assert_eq!(resource.vault, accounts.vault.key);
    assert_eq!(resource.vault_owner, accounts.vault_owner);
    assert_eq!(transfer.amount, 1);
    assert_eq!(transfer.to, accounts.vault.key);
    assert_eq!(transfer.authority, accounts.admin.key);
}

#[test]
fn fail_supply_is_gt_than_available() {
    let membership_program = addr(10);
    let metadata_program = addr(11);
    let (accounts, vault_owner_bump) =
        selling_resource_accounts(&membership_program, &metadata_program, Some(100), 0);
    let outcome = init_selling_resource(
        &accounts,
        &membership_program,
        &metadata_program,
        vault_owner_bump,
        Some(1337),
    );
    assert_eq!(outcome.unwrap_err(), ErrorCode::SupplyIsGtThanAvailable);
}

#[test]
fn fail_supply_is_not_provided() {
    let membership_program = addr(10);
    let metadata_program = addr(11);
    let (accounts, vault_owner_bump) =
        selling_resource_accounts(&membership_program, &metadata_program, Some(100), 0);
    let outcome = init_selling_resource(
        &accounts,
        &membership_program,
        &metadata_program,
        vault_owner_bump,
        None,
    );
    assert_eq!(outcome.unwrap_err(), ErrorCode::SupplyIsNotProvided);
}

#[test]
fn fail_wrong_vault_owner_bump() {
    let membership_program = addr(10);
    let metadata_program = addr(11);
    let (accounts, vault_owner_bump) =
        selling_resource_accounts(&membership_program, &metadata_program, None, 0);
    let outcome = init_selling_resource(
        &accounts,
        &membership_program,
        &metadata_program,
        vault_owner_bump.wrapping_add(1),
        None,
    );
    assert_eq!(outcome.unwrap_err(), ErrorCode::DerivedKeyInvalid);
}
