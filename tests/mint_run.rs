use solana_anchor_metaplex_mint_nfts::calls::{
    plan_call, MASTER_EDITION_MAX_SUPPLY, MINT_ACCOUNT_LAMPORTS, MINT_ACCOUNT_SPACE, NFT_AMOUNT,
    NFT_DECIMALS, SELLER_FEE_BASIS_POINTS, STEP_COUNT,
};
use solana_anchor_metaplex_mint_nfts::{
    mint_nft, AccountRef, AccountsError, Call, MintNft, MintNftRun, Progress, Role, Status,
};

fn writable_signer() -> AccountRef {
    AccountRef { is_signer: true, is_writable: true }
}

fn writable() -> AccountRef {
    AccountRef { is_signer: false, is_writable: true }
}

fn read_only() -> AccountRef {
    AccountRef { is_signer: false, is_writable: false }
}

fn good_accounts() -> MintNft {
    MintNft {
        metadata: writable(),
        master_edition_metadata: writable(),
        mint: writable_signer(),
        token_account: writable(),
        mint_authority: writable_signer(),
        rent: read_only(),
        system_program: read_only(),
        token_program: read_only(),
        associated_token_program: read_only(),
        token_metadata_program: read_only(),
    }
}

fn start(name: &str, symbol: &str, uri: &str) -> (MintNftRun, Call) {
    mint_nft(&good_accounts(), name.to_string(), symbol.to_string(), uri.to_string())
        .expect("accounts carry every capability")
}

/// Drives a run, failing the call at position `fail_at` (if any) with `code`.
/// Returns the calls issued and the final outcome.
fn drive(
    name: &str,
    symbol: &str,
    uri: &str,
    fail_at: Option<usize>,
    code: u32,
) -> (Vec<Call>, Result<(), u32>, MintNftRun) {
    let (mut run, first) = start(name, symbol, uri);
    let mut calls = vec![first];
    loop {
        let position = calls.len() - 1;
        let outcome = if fail_at == Some(position) { Err(code) } else { Ok(()) };
        match run.advance(outcome) {
            Progress::Invoke(c) => calls.push(c),
            Progress::Done(r) => return (calls, r, run),
        }
    }
}

#[test]
fn scenario_test_nft_succeeds_with_exact_metadata() {
    let (calls, result, run) =
        drive("Test NFT", "TST", "https://example.com/meta.json", None, 0);
    assert_eq!(result, Ok(()));
    assert_eq!(run.status(), Status::Succeeded);
    assert_eq!(calls.len(), 6);
    let minted: u64 = calls
        .iter()
        .map(|c| match c {
            Call::MintTo { mint: Role::Mint, to: Role::TokenAccount, amount, .. } => *amount,
            _ => 0,
        })
        .sum();
    assert_eq!(minted, 1);
    match &calls[4] {
        Call::CreateMetadataAccountsV3 { name, symbol, uri, .. } => {
            assert_eq!(name, "Test NFT");
            assert_eq!(symbol, "TST");
            assert_eq!(uri, "https://example.com/meta.json");
        }
        other => panic!("unexpected call {:?}", other),
    }
}

#[test]
fn success_mint_has_no_decimals_and_supply_one() {
    let (calls, _, _) = drive("A", "B", "C", None, 0);
    let decimals: Vec<u8> = calls
        .iter()
        .filter_map(|c| match c {
            Call::InitializeMint { mint: Role::Mint, decimals, .. } => Some(*decimals),
            _ => None,
        })
        .collect();
    assert_eq!(decimals, vec![0]);
    let supply: u64 = calls
        .iter()
        .map(|c| match c {
            Call::MintTo { mint: Role::Mint, amount, .. } => *amount,
            _ => 0,
        })
        .sum();
    assert_eq!(supply, 1);
}

#[test]
fn success_token_account_owned_by_authority() {
    let (calls, _, _) = drive("A", "B", "C", None, 0);
    match &calls[2] {
        Call::CreateAssociatedTokenAccount { associated_token, authority, mint, payer, .. } => {
            assert_eq!(*associated_token, Role::TokenAccount);
            assert_eq!(*authority, Role::MintAuthority);
            assert_eq!(*payer, Role::MintAuthority);
            assert_eq!(*mint, Role::Mint);
        }
        other => panic!("unexpected call {:?}", other),
    }
}

#[test]
fn success_metadata_strings_are_verbatim() {
    let long_name = "x".repeat(32);
    let uri = "https://example.com/\u{fc}n\u{ef}code?q=1&r= 2";
    let (calls, _, run) = drive(&long_name, "", uri, None, 0);
    assert_eq!(run.name(), &long_name);
    assert_eq!(run.symbol(), "");
    assert_eq!(run.uri(), uri);
    match &calls[4] {
        Call::CreateMetadataAccountsV3 { name, symbol, uri: u, is_mutable, .. } => {
            assert_eq!(name, &long_name);
            assert_eq!(symbol, "");
            assert_eq!(u, uri);
            assert!(!*is_mutable);
        }
        other => panic!("unexpected call {:?}", other),
    }
}

#[test]
fn success_master_edition_allows_no_more_editions() {
    let (calls, _, _) = drive("A", "B", "C", None, 0);
    match &calls[5] {
        Call::CreateMasterEditionV3 { edition, mint, metadata, max_supply, .. } => {
            assert_eq!(*edition, Role::MasterEditionMetadata);
            assert_eq!(*mint, Role::Mint);
            assert_eq!(*metadata, Role::Metadata);
            assert_eq!(*max_supply, Some(0));
        }
        other => panic!("unexpected call {:?}", other),
    }
}

#[test]
fn failure_at_each_step_stops_and_hands_back_the_error() {
    for k in 0..6usize {
        let code = 100 + k as u32;
        let (calls, result, run) = drive("A", "B", "C", Some(k), code);
        assert_eq!(result, Err(code));
        assert_eq!(calls.len(), k + 1);
        assert_eq!(run.issued(), k + 1);
        assert_eq!(run.status(), Status::Failed);
    }
}

#[test]
fn calls_come_in_plan_order() {
    let (calls, _, _) = drive("A", "B", "C", None, 0);
    assert!(matches!(
        calls[0],
        Call::CreateAccount {
            program: Role::TokenProgram,
            from: Role::MintAuthority,
            to: Role::Mint,
            lamports: 10000000,
            space: 82,
            owner: Role::TokenProgram,
        }
    ));
    assert!(matches!(
        calls[1],
        Call::InitializeMint {
            mint: Role::Mint,
            rent: Role::Rent,
            decimals: 0,
            mint_authority: Role::MintAuthority,
            freeze_authority: Some(Role::MintAuthority),
            ..
        }
    ));
    assert!(matches!(calls[2], Call::CreateAssociatedTokenAccount { .. }));
    assert!(matches!(
        calls[3],
        Call::MintTo { mint: Role::Mint, to: Role::TokenAccount, authority: Role::MintAuthority, amount: 1, .. }
    ));
    assert!(matches!(
        calls[4],
        Call::CreateMetadataAccountsV3 {
            seller_fee_basis_points: 1,
            update_authority_is_signer: true,
            is_mutable: false,
            ..
        }
    ));
    assert!(matches!(calls[5], Call::CreateMasterEditionV3 { .. }));
}

#[test]
fn plan_call_matches_run() {
    let name = "N".to_string();
    let symbol = "S".to_string();
    let uri = "U".to_string();
    let (calls, _, _) = drive("N", "S", "U", None, 0);
    for i in 0..STEP_COUNT {
        assert_eq!(plan_call(i, &name, &symbol, &uri), calls[i]);
    }
}

#[test]
fn constants_have_their_values() {
    assert_eq!(STEP_COUNT, 6);
    assert_eq!(MINT_ACCOUNT_LAMPORTS, 10_000_000);
    assert_eq!(MINT_ACCOUNT_SPACE, 82);
    assert_eq!(NFT_DECIMALS, 0);
    assert_eq!(NFT_AMOUNT, 1);
    assert_eq!(SELLER_FEE_BASIS_POINTS, 1);
    assert_eq!(MASTER_EDITION_MAX_SUPPLY, 0);
}

#[test]
fn metadata_calls_carry_their_account_lists() {
    let (calls, _, _) = drive("A", "B", "C", None, 0);
    assert_eq!(
        calls[4].account_infos(),
        vec![Role::Metadata, Role::Mint, Role::TokenAccount, Role::MintAuthority, Role::Rent]
    );
    assert_eq!(
        calls[5].account_infos(),
        vec![
            Role::MasterEditionMetadata,
            Role::Metadata,
            Role::Mint,
            Role::TokenAccount,
            Role::MintAuthority,
            Role::Rent
        ]
    );
    assert!(calls[0].account_infos().is_empty());
}

#[test]
fn unsigned_mint_is_refused() {
    let mut a = good_accounts();
    a.mint = writable();
    let r = mint_nft(&a, "A".to_string(), "B".to_string(), "C".to_string());
    assert!(matches!(r, Err(AccountsError::AccountNotSigner(Role::Mint))));
}

#[test]
fn unsigned_authority_is_refused() {
    let mut a = good_accounts();
    a.mint_authority = writable();
    a.metadata = read_only();
    assert_eq!(a.validate(), Err(AccountsError::AccountNotSigner(Role::MintAuthority)));
}

#[test]
fn signatures_are_checked_before_writability() {
    let mut a = good_accounts();
    a.metadata = read_only();
    a.mint = AccountRef { is_signer: false, is_writable: false };
    assert_eq!(a.validate(), Err(AccountsError::AccountNotSigner(Role::Mint)));
}

#[test]
fn read_only_targets_are_refused_in_field_order() {
    let mut a = good_accounts();
    a.token_account = read_only();
    a.master_edition_metadata = read_only();
    assert_eq!(a.validate(), Err(AccountsError::ConstraintMut(Role::MasterEditionMetadata)));
    let mut b = good_accounts();
    b.token_account = read_only();
    assert_eq!(b.validate(), Err(AccountsError::ConstraintMut(Role::TokenAccount)));
    let mut c = good_accounts();
    c.mint = AccountRef { is_signer: true, is_writable: false };
    assert_eq!(c.validate(), Err(AccountsError::ConstraintMut(Role::Mint)));
    let mut d = good_accounts();
    d.mint_authority = AccountRef { is_signer: true, is_writable: false };
    assert_eq!(d.validate(), Err(AccountsError::ConstraintMut(Role::MintAuthority)));
    let mut e = good_accounts();
    e.metadata = read_only();
    assert_eq!(e.validate(), Err(AccountsError::ConstraintMut(Role::Metadata)));
}

#[test]
fn good_accounts_pass_and_account_lookup_works() {
    let a = good_accounts();
    assert_eq!(a.validate(), Ok(()));
    assert_eq!(a.account(Role::Mint), writable_signer());
    assert_eq!(a.account(Role::Rent), read_only());
    assert_eq!(a.account(Role::TokenAccount), writable());
}
