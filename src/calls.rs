use vstd::prelude::*;

use crate::accounts::Role;

verus! {

/// Number of cross-program calls that make up one mint.
pub const STEP_COUNT: usize = 6;

/// Lamports moved from the payer into the new mint account.
pub const MINT_ACCOUNT_LAMPORTS: u64 = 10000000;

/// Bytes allocated for the mint account: the token program's mint layout.
pub const MINT_ACCOUNT_SPACE: u64 = 82;

/// Decimal places of a non-fungible mint.
pub const NFT_DECIMALS: u8 = 0;

/// Units minted into the token account.
pub const NFT_AMOUNT: u64 = 1;

/// Royalty recorded in the metadata, in basis points.
pub const SELLER_FEE_BASIS_POINTS: u16 = 1;

/// Further editions that the master edition allows.
pub const MASTER_EDITION_MAX_SUPPLY: u64 = 0;

/// One cross-program call. Every account position names the role whose
/// account stands there.
#[derive(Clone, Debug, PartialEq, Eq)]
pub enum Call {
    /// System program: allocate `space` bytes at `to`, funded by `from`, and
    /// hand the account to the program in `owner`. `program` is the program
    /// account the call is addressed through.
    CreateAccount { program: Role, from: Role, to: Role, lamports: u64, space: u64, owner: Role },
    /// Token program: make `mint` a mint.
    InitializeMint {
        program: Role,
        mint: Role,
        rent: Role,
        decimals: u8,
        mint_authority: Role,
        freeze_authority: Option<Role>,
    },
    /// Associated-token program: create the token account of `authority`
    /// for `mint` at `associated_token`.
    CreateAssociatedTokenAccount {
        program: Role,
        payer: Role,
        associated_token: Role,
        authority: Role,
        mint: Role,
        system_program: Role,
        token_program: Role,
        rent: Role,
    },
    /// Token program: mint `amount` units of `mint` into `to`.
    MintTo { program: Role, mint: Role, to: Role, authority: Role, amount: u64 },
    /// Metadata program: create the metadata record of `mint`, with no
    /// creators, collection, uses or collection details.
    CreateMetadataAccountsV3 {
        metadata: Role,
        mint: Role,
        mint_authority: Role,
        payer: Role,
        update_authority: Role,
        name: String,
        symbol: String,
        uri: String,
        seller_fee_basis_points: u16,
        update_authority_is_signer: bool,
        is_mutable: bool,
    },
    /// Metadata program: create the master-edition record of `mint`.
    CreateMasterEditionV3 {
        edition: Role,
        mint: Role,
        update_authority: Role,
        mint_authority: Role,
        metadata: Role,
        payer: Role,
        max_supply: Option<u64>,
    },
}

/// The call made at position `i` of a mint with the given metadata strings.
pub open spec fn planned_call(i: int, name: String, symbol: String, uri: String) -> Call {
    if i == 0 {
        Call::CreateAccount {
            program: Role::TokenProgram,
            from: Role::MintAuthority,
            to: Role::Mint,
            lamports: MINT_ACCOUNT_LAMPORTS,
            space: MINT_ACCOUNT_SPACE,
            owner: Role::TokenProgram,
        }
    } else if i == 1 {
        Call::InitializeMint {
            program: Role::TokenProgram,
            mint: Role::Mint,
            rent: Role::Rent,
            decimals: NFT_DECIMALS,
            mint_authority: Role::MintAuthority,
            freeze_authority: Some(Role::MintAuthority),
        }
    } else if i == 2 {
        Call::CreateAssociatedTokenAccount {
            program: Role::AssociatedTokenProgram,
            payer: Role::MintAuthority,
            associated_token: Role::TokenAccount,
            authority: Role::MintAuthority,
            mint: Role::Mint,
            system_program: Role::SystemProgram,
            token_program: Role::TokenProgram,
            rent: Role::Rent,
        }
    } else if i == 3 {
        Call::MintTo {
            program: Role::TokenProgram,
            mint: Role::Mint,
            to: Role::TokenAccount,
            authority: Role::MintAuthority,
            amount: NFT_AMOUNT,
        }
    } else if i == 4 {
        Call::CreateMetadataAccountsV3 {
            metadata: Role::Metadata,
            mint: Role::Mint,
            mint_authority: Role::MintAuthority,
            payer: Role::MintAuthority,
            update_authority: Role::MintAuthority,
            name,
            symbol,
            uri,
            seller_fee_basis_points: SELLER_FEE_BASIS_POINTS,
            update_authority_is_signer: true,
            is_mutable: false,
        }
    } else {
        Call::CreateMasterEditionV3 {
            edition: Role::MasterEditionMetadata,
            mint: Role::Mint,
            update_authority: Role::MintAuthority,
            mint_authority: Role::MintAuthority,
            metadata: Role::Metadata,
            payer: Role::MintAuthority,
            max_supply: Some(MASTER_EDITION_MAX_SUPPLY),
        }
    }
}

/// The first `n` calls of a mint with the given metadata strings.
pub open spec fn planned_prefix(n: int, name: String, symbol: String, uri: String) -> Seq<Call> {
    Seq::new(n as nat, |i: int| planned_call(i, name, symbol, uri))
}

/// The roles whose accounts go with a call to the metadata program, in order;
/// empty for the other calls, whose account lists the call itself fixes.
pub open spec fn spec_account_infos(c: Call) -> Seq<Role> {
    match c {
        Call::CreateMetadataAccountsV3 { .. } => seq![
            Role::Metadata,
            Role::Mint,
            Role::TokenAccount,
            Role::MintAuthority,
            Role::Rent,
        ],
        Call::CreateMasterEditionV3 { .. } => seq![
            Role::MasterEditionMetadata,
            Role::Metadata,
            Role::Mint,
            Role::TokenAccount,
            Role::MintAuthority,
            Role::Rent,
        ],
        _ => Seq::empty(),
    }
}

/// Builds the call made at position `i`.
pub fn plan_call(i: usize, name: &String, symbol: &String, uri: &String) -> (r: Call)
    requires
        i < STEP_COUNT,
    ensures
        r == planned_call(i as int, *name, *symbol, *uri),
{
    if i == 0 {
        Call::CreateAccount {
            program: Role::TokenProgram,
            from: Role::MintAuthority,
            to: Role::Mint,
            lamports: MINT_ACCOUNT_LAMPORTS,
            space: MINT_ACCOUNT_SPACE,
            owner: Role::TokenProgram,
        }
    } else if i == 1 {
        Call::InitializeMint {
            program: Role::TokenProgram,
            mint: Role::Mint,
            rent: Role::Rent,
            decimals: NFT_DECIMALS,
            mint_authority: Role::MintAuthority,
            freeze_authority: Some(Role::MintAuthority),
        }
    } else if i == 2 {
        Call::CreateAssociatedTokenAccount {
            program: Role::AssociatedTokenProgram,
            payer: Role::MintAuthority,
            associated_token: Role::TokenAccount,
            authority: Role::MintAuthority,
            mint: Role::Mint,
            system_program: Role::SystemProgram,
            token_program: Role::TokenProgram,
            rent: Role::Rent,
        }
    } else if i == 3 {
        Call::MintTo {
            program: Role::TokenProgram,
            mint: Role::Mint,
            to: Role::TokenAccount,
            authority: Role::MintAuthority,
            amount: NFT_AMOUNT,
        }
    } else if i == 4 {
        Call::CreateMetadataAccountsV3 {
            metadata: Role::Metadata,
            mint: Role::Mint,
            mint_authority: Role::MintAuthority,
            payer: Role::MintAuthority,
            update_authority: Role::MintAuthority,
            name: name.clone(),
            symbol: symbol.clone(),
            uri: uri.clone(),
            seller_fee_basis_points: SELLER_FEE_BASIS_POINTS,
            update_authority_is_signer: true,
            is_mutable: false,
        }
    } else {
        Call::CreateMasterEditionV3 {
            edition: Role::MasterEditionMetadata,
            mint: Role::Mint,
            update_authority: Role::MintAuthority,
            mint_authority: Role::MintAuthority,
            metadata: Role::Metadata,
            payer: Role::MintAuthority,
            max_supply: Some(MASTER_EDITION_MAX_SUPPLY),
        }
    }
}

impl Call {
    /// The roles whose accounts go with this call when it is invoked
    /// directly (the metadata program's calls), in order.
    pub fn account_infos(&self) -> (r: Vec<Role>)
        ensures
            r@ == spec_account_infos(*self),
    {
        match self {
            Call::CreateMetadataAccountsV3 { .. } => vec![
                Role::Metadata,
                Role::Mint,
                Role::TokenAccount,
                Role::MintAuthority,
                Role::Rent,
            ],
            Call::CreateMasterEditionV3 { .. } => vec![
                Role::MasterEditionMetadata,
                Role::Metadata,
                Role::Mint,
                Role::TokenAccount,
                Role::MintAuthority,
                Role::Rent,
            ],
            _ => Vec::new(),
        }
    }
}

} // verus!
