//! What a sequence of committed calls establishes in the accounts it names,
//! and the laws that every finished run obeys.
use vstd::prelude::*;

use crate::accounts::Role;
use crate::calls::{
    planned_call, planned_prefix, Call, MASTER_EDITION_MAX_SUPPLY, NFT_AMOUNT, NFT_DECIMALS,
    STEP_COUNT,
};
use crate::run::{MintNftRun, Status};

verus! {

/// Decimal places given to the mint by the last call of `calls` that
/// initializes it; `None` when none does.
pub open spec fn mint_decimals(calls: Seq<Call>) -> Option<u8>
    decreases calls.len(),
{
    if calls.len() == 0 {
        None
    } else {
        match calls.last() {
            Call::InitializeMint { mint, decimals, .. } => if mint == Role::Mint {
                Some(decimals)
            } else {
                mint_decimals(calls.drop_last())
            },
            _ => mint_decimals(calls.drop_last()),
        }
    }
}

/// Units of the mint issued by `calls`, wherever they went.
pub open spec fn minted_supply(calls: Seq<Call>) -> int
    decreases calls.len(),
{
    if calls.len() == 0 {
        0
    } else {
        minted_supply(calls.drop_last()) + match calls.last() {
            Call::MintTo { mint, amount, .. } => if mint == Role::Mint {
                amount as int
            } else {
                0
            },
            _ => 0,
        }
    }
}

/// Units of the mint credited to the token account by `calls`.
pub open spec fn token_balance(calls: Seq<Call>) -> int
    decreases calls.len(),
{
    if calls.len() == 0 {
        0
    } else {
        token_balance(calls.drop_last()) + match calls.last() {
            Call::MintTo { mint, to, amount, .. } => if mint == Role::Mint && to
                == Role::TokenAccount {
                amount as int
            } else {
                0
            },
            _ => 0,
        }
    }
}

/// The owner given to the token account of the mint by the last call of
/// `calls` that creates it.
pub open spec fn token_account_owner(calls: Seq<Call>) -> Option<Role>
    decreases calls.len(),
{
    if calls.len() == 0 {
        None
    } else {
        match calls.last() {
            Call::CreateAssociatedTokenAccount {
                associated_token,
                authority,
                mint,
                ..
            } => if associated_token == Role::TokenAccount && mint == Role::Mint {
                Some(authority)
            } else {
                token_account_owner(calls.drop_last())
            },
            _ => token_account_owner(calls.drop_last()),
        }
    }
}

/// Name, symbol and URI stored in the metadata record of the mint by the
/// last call of `calls` that creates it.
pub open spec fn metadata_strings(calls: Seq<Call>) -> Option<(Seq<char>, Seq<char>, Seq<char>)>
    decreases calls.len(),
{
    if calls.len() == 0 {
        None
    } else {
        match calls.last() {
            Call::CreateMetadataAccountsV3 {
                metadata,
                mint,
                name,
                symbol,
                uri,
                ..
            } => if metadata == Role::Metadata && mint == Role::Mint {
                Some((name@, symbol@, uri@))
            } else {
                metadata_strings(calls.drop_last())
            },
            _ => metadata_strings(calls.drop_last()),
        }
    }
}

/// The maximum supply recorded in the master edition of the mint by the
/// last call of `calls` that creates it (`Some(None)`: unbounded).
pub open spec fn edition_max_supply(calls: Seq<Call>) -> Option<Option<u64>>
    decreases calls.len(),
{
    if calls.len() == 0 {
        None
    } else {
        match calls.last() {
            Call::CreateMasterEditionV3 { edition, mint, max_supply, .. } => if edition
                == Role::MasterEditionMetadata && mint == Role::Mint {
                Some(max_supply)
            } else {
                edition_max_supply(calls.drop_last())
            },
            _ => edition_max_supply(calls.drop_last()),
        }
    }
}

/// The account a call brings into an initialized state.
pub open spec fn initialized_by(c: Call) -> Role {
    match c {
        Call::CreateAccount { to, .. } => to,
        Call::InitializeMint { mint, .. } => mint,
        Call::CreateAssociatedTokenAccount { associated_token, .. } => associated_token,
        Call::MintTo { to, .. } => to,
        Call::CreateMetadataAccountsV3 { metadata, .. } => metadata,
        Call::CreateMasterEditionV3 { edition, .. } => edition,
    }
}

/// The accounts that `calls` bring into an initialized state.
pub open spec fn initialized_roles(calls: Seq<Call>) -> Set<Role> {
    Set::new(|role: Role| exists|i: int| 0 <= i < calls.len() && initialized_by(#[trigger] calls[i]) == role)
}

proof fn lemma_prefix_step(n: int, name: String, symbol: String, uri: String)
    requires
        0 <= n,
    ensures
        planned_prefix(n + 1, name, symbol, uri).drop_last() == planned_prefix(n, name, symbol, uri),
        planned_prefix(n + 1, name, symbol, uri).last() == planned_call(n, name, symbol, uri),
{
    assert(planned_prefix(n + 1, name, symbol, uri).drop_last() =~= planned_prefix(n, name, symbol, uri));
}

/// What the whole plan establishes.
proof fn lemma_full_plan(name: String, symbol: String, uri: String)
    ensures
        mint_decimals(planned_prefix(STEP_COUNT as int, name, symbol, uri)) == Some(NFT_DECIMALS),
        minted_supply(planned_prefix(STEP_COUNT as int, name, symbol, uri)) == NFT_AMOUNT as int,
        token_balance(planned_prefix(STEP_COUNT as int, name, symbol, uri)) == NFT_AMOUNT as int,
        token_account_owner(planned_prefix(STEP_COUNT as int, name, symbol, uri)) == Some(Role::MintAuthority),
        metadata_strings(planned_prefix(STEP_COUNT as int, name, symbol, uri)) == Some((name@, symbol@, uri@)),
        edition_max_supply(planned_prefix(STEP_COUNT as int, name, symbol, uri)) == Some(Some(MASTER_EDITION_MAX_SUPPLY)),
{
    let p0 = planned_prefix(0, name, symbol, uri);
    let p1 = planned_prefix(1, name, symbol, uri);
    let p2 = planned_prefix(2, name, symbol, uri);
    let p3 = planned_prefix(3, name, symbol, uri);
    let p4 = planned_prefix(4, name, symbol, uri);
    let p5 = planned_prefix(5, name, symbol, uri);
    lemma_prefix_step(0, name, symbol, uri);
    lemma_prefix_step(1, name, symbol, uri);
    lemma_prefix_step(2, name, symbol, uri);
    lemma_prefix_step(3, name, symbol, uri);
    lemma_prefix_step(4, name, symbol, uri);
    lemma_prefix_step(5, name, symbol, uri);
    assert(mint_decimals(p0) == None::<u8>);
    assert(mint_decimals(p1) == None::<u8>);
    assert(mint_decimals(p2) == Some(NFT_DECIMALS));
    assert(mint_decimals(p3) == Some(NFT_DECIMALS));
    assert(mint_decimals(p4) == Some(NFT_DECIMALS));
    assert(mint_decimals(p5) == Some(NFT_DECIMALS));
    assert(minted_supply(p0) == 0);
    assert(minted_supply(p1) == 0);
    assert(minted_supply(p2) == 0);
    assert(minted_supply(p3) == 0);
    assert(minted_supply(p4) == 1);
    assert(minted_supply(p5) == 1);
    assert(token_balance(p0) == 0);
    assert(token_balance(p1) == 0);
    assert(token_balance(p2) == 0);
    assert(token_balance(p3) == 0);
    assert(token_balance(p4) == 1);
    assert(token_balance(p5) == 1);
    assert(token_account_owner(p0) == None::<Role>);
    assert(token_account_owner(p1) == None::<Role>);
    assert(token_account_owner(p2) == None::<Role>);
    assert(token_account_owner(p3) == Some(Role::MintAuthority));
    assert(token_account_owner(p4) == Some(Role::MintAuthority));
    assert(token_account_owner(p5) == Some(Role::MintAuthority));
    assert(metadata_strings(p0) == None::<(Seq<char>, Seq<char>, Seq<char>)>);
    assert(metadata_strings(p1) == None::<(Seq<char>, Seq<char>, Seq<char>)>);
    assert(metadata_strings(p2) == None::<(Seq<char>, Seq<char>, Seq<char>)>);
    assert(metadata_strings(p3) == None::<(Seq<char>, Seq<char>, Seq<char>)>);
    assert(metadata_strings(p4) == None::<(Seq<char>, Seq<char>, Seq<char>)>);
    assert(metadata_strings(p5) == Some((name@, symbol@, uri@)));
    assert(edition_max_supply(p0) == None::<Option<u64>>);
    assert(edition_max_supply(p1) == None::<Option<u64>>);
    assert(edition_max_supply(p2) == None::<Option<u64>>);
    assert(edition_max_supply(p3) == None::<Option<u64>>);
    assert(edition_max_supply(p4) == None::<Option<u64>>);
    assert(edition_max_supply(p5) == None::<Option<u64>>);
}

/// A run that succeeded leaves a mint with no decimal places and a total
/// supply of exactly one unit.
pub proof fn lemma_success_mint_is_indivisible_single_unit(run: &MintNftRun)
    requires
        run.wf(),
        run.spec_status() == Status::Succeeded,
    ensures
        mint_decimals(run.committed_calls()) == Some(0u8),
        minted_supply(run.committed_calls()) == 1,
{
    lemma_full_plan(run.spec_name(), run.spec_symbol(), run.spec_uri());
}

/// A run that succeeded leaves a token account owned by the minting
/// authority and holding exactly one unit.
pub proof fn lemma_success_token_account_held_by_authority(run: &MintNftRun)
    requires
        run.wf(),
        run.spec_status() == Status::Succeeded,
    ensures
        token_account_owner(run.committed_calls()) == Some(Role::MintAuthority),
        token_balance(run.committed_calls()) == 1,
{
    lemma_full_plan(run.spec_name(), run.spec_symbol(), run.spec_uri());
}

/// A run that succeeded stores the metadata strings it was started with,
/// unchanged.
pub proof fn lemma_success_metadata_verbatim(run: &MintNftRun)
    requires
        run.wf(),
        run.spec_status() == Status::Succeeded,
    ensures
        metadata_strings(run.committed_calls()) == Some(
            (run.spec_name()@, run.spec_symbol()@, run.spec_uri()@),
        ),
{
    lemma_full_plan(run.spec_name(), run.spec_symbol(), run.spec_uri());
}

/// A run that succeeded leaves a master edition that allows no further
/// editions.
pub proof fn lemma_success_edition_closed(run: &MintNftRun)
    requires
        run.wf(),
        run.spec_status() == Status::Succeeded,
    ensures
        edition_max_supply(run.committed_calls()) == Some(Some(0u64)),
{
    lemma_full_plan(run.spec_name(), run.spec_symbol(), run.spec_uri());
}

/// A run that succeeded has initialized exactly the four accounts it
/// targets: the mint, the token account, the metadata and the master edition.
pub proof fn lemma_success_initializes_targets(run: &MintNftRun)
    requires
        run.wf(),
        run.spec_status() == Status::Succeeded,
    ensures
        initialized_roles(run.committed_calls()) == set![
            Role::Mint,
            Role::TokenAccount,
            Role::Metadata,
            Role::MasterEditionMetadata,
        ],
{
    let calls = run.committed_calls();
    let targets = set![
        Role::Mint,
        Role::TokenAccount,
        Role::Metadata,
        Role::MasterEditionMetadata,
    ];
    assert(initialized_by(calls[0]) == Role::Mint);
    assert(initialized_by(calls[2]) == Role::TokenAccount);
    assert(initialized_by(calls[4]) == Role::Metadata);
    assert(initialized_by(calls[5]) == Role::MasterEditionMetadata);
    assert forall|role: Role| initialized_roles(calls).contains(role) implies targets.contains(role) by {
        let i = choose|i: int| 0 <= i < calls.len() && initialized_by(#[trigger] calls[i]) == role;
        assert(calls[i] == planned_call(i, run.spec_name(), run.spec_symbol(), run.spec_uri()));
    }
    assert(initialized_roles(calls) =~= targets);
}

/// A run that failed, at whichever call, leaves none of the accounts it
/// targets initialized: no mint, no balance, no metadata, no edition.
pub proof fn lemma_failure_leaves_nothing(run: &MintNftRun)
    requires
        run.wf(),
        run.spec_status() == Status::Failed,
    ensures
        run.issued_count() <= STEP_COUNT,
        run.committed_calls() == Seq::<Call>::empty(),
        initialized_roles(run.committed_calls()) == Set::<Role>::empty(),
        mint_decimals(run.committed_calls()) == None::<u8>,
        minted_supply(run.committed_calls()) == 0,
        token_balance(run.committed_calls()) == 0,
        token_account_owner(run.committed_calls()) == None::<Role>,
        metadata_strings(run.committed_calls()) == None::<(Seq<char>, Seq<char>, Seq<char>)>,
        edition_max_supply(run.committed_calls()) == None::<Option<u64>>,
{
    assert(initialized_roles(run.committed_calls()) =~= Set::<Role>::empty());
}

} // verus!
