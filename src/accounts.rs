use vstd::prelude::*;

verus! {

/// The access mode under which an account was handed to the instruction.
#[derive(Clone, Copy, Debug, PartialEq, Eq, Structural)]
pub struct AccountRef {
    pub is_signer: bool,
    pub is_writable: bool,
}

/// The part an account plays in the mint instruction; each names one field
/// of [`MintNft`].
#[derive(Clone, Copy, Debug, PartialEq, Eq, Structural)]
pub enum Role {
    Metadata,
    MasterEditionMetadata,
    Mint,
    TokenAccount,
    MintAuthority,
    Rent,
    SystemProgram,
    TokenProgram,
    AssociatedTokenProgram,
    TokenMetadataProgram,
}

/// Why an account bundle was refused before any call was made.
#[derive(Clone, Copy, Debug, PartialEq, Eq, Structural)]
pub enum AccountsError {
    /// The account in this role had to sign the transaction and did not.
    AccountNotSigner(Role),
    /// The account in this role had to be writable and was not.
    ConstraintMut(Role),
}

/// The accounts that the mint instruction needs, each with its access mode.
#[derive(Clone, Copy, Debug)]
pub struct MintNft {
    /// Metadata record, created by the metadata program.
    pub metadata: AccountRef,
    /// Master-edition record, created by the metadata program.
    pub master_edition_metadata: AccountRef,
    /// The fresh mint account; it signs its own creation.
    pub mint: AccountRef,
    /// The associated token account of the authority for the mint.
    pub token_account: AccountRef,
    /// The wallet that pays for everything and holds every authority.
    pub mint_authority: AccountRef,
    pub rent: AccountRef,
    pub system_program: AccountRef,
    pub token_program: AccountRef,
    pub associated_token_program: AccountRef,
    pub token_metadata_program: AccountRef,
}

/// Whether the account in `role` must sign.
pub open spec fn needs_signer(role: Role) -> bool {
    role == Role::Mint || role == Role::MintAuthority
}

/// Whether the account in `role` must be writable.
pub open spec fn needs_writable(role: Role) -> bool {
    match role {
        Role::Metadata | Role::MasterEditionMetadata | Role::Mint | Role::TokenAccount
        | Role::MintAuthority => true,
        _ => false,
    }
}

impl MintNft {
    /// The account that plays `role`.
    pub open spec fn spec_account(&self, role: Role) -> AccountRef {
        match role {
            Role::Metadata => self.metadata,
            Role::MasterEditionMetadata => self.master_edition_metadata,
            Role::Mint => self.mint,
            Role::TokenAccount => self.token_account,
            Role::MintAuthority => self.mint_authority,
            Role::Rent => self.rent,
            Role::SystemProgram => self.system_program,
            Role::TokenProgram => self.token_program,
            Role::AssociatedTokenProgram => self.associated_token_program,
            Role::TokenMetadataProgram => self.token_metadata_program,
        }
    }

    /// Every account carries the access mode that its role asks for.
    pub open spec fn capabilities_present(&self) -> bool {
        forall|role: Role|
            (needs_signer(role) ==> (#[trigger] self.spec_account(role)).is_signer) && (
            needs_writable(role) ==> self.spec_account(role).is_writable)
    }

    /// The verdict on the bundle: signatures are checked first, in field
    /// order, then writability, in field order.
    pub open spec fn spec_validation(&self) -> Result<(), AccountsError> {
        if !self.mint.is_signer {
            Err(AccountsError::AccountNotSigner(Role::Mint))
        } else if !self.mint_authority.is_signer {
            Err(AccountsError::AccountNotSigner(Role::MintAuthority))
        } else if !self.metadata.is_writable {
            Err(AccountsError::ConstraintMut(Role::Metadata))
        } else if !self.master_edition_metadata.is_writable {
            Err(AccountsError::ConstraintMut(Role::MasterEditionMetadata))
        } else if !self.mint.is_writable {
            Err(AccountsError::ConstraintMut(Role::Mint))
        } else if !self.token_account.is_writable {
            Err(AccountsError::ConstraintMut(Role::TokenAccount))
        } else if !self.mint_authority.is_writable {
            Err(AccountsError::ConstraintMut(Role::MintAuthority))
        } else {
            Ok(())
        }
    }

    /// The account that plays `role`.
    pub fn account(&self, role: Role) -> (r: AccountRef)
        ensures
            r == self.spec_account(role),
    {
        match role {
            Role::Metadata => self.metadata,
            Role::MasterEditionMetadata => self.master_edition_metadata,
            Role::Mint => self.mint,
            Role::TokenAccount => self.token_account,
            Role::MintAuthority => self.mint_authority,
            Role::Rent => self.rent,
            Role::SystemProgram => self.system_program,
            Role::TokenProgram => self.token_program,
            Role::AssociatedTokenProgram => self.associated_token_program,
            Role::TokenMetadataProgram => self.token_metadata_program,
        }
    }

    /// Checks that every account carries the access mode its role asks for.
    pub fn validate(&self) -> (r: Result<(), AccountsError>)
        ensures
            r == self.spec_validation(),
            r is Ok <==> self.capabilities_present(),
    {
        proof {
            assert(self.spec_account(Role::Mint) == self.mint);
            assert(self.spec_account(Role::MintAuthority) == self.mint_authority);
            assert(self.spec_account(Role::Metadata) == self.metadata);
            assert(self.spec_account(Role::MasterEditionMetadata) == self.master_edition_metadata);
            assert(self.spec_account(Role::TokenAccount) == self.token_account);
        }
        if !self.mint.is_signer {
            Err(AccountsError::AccountNotSigner(Role::Mint))
        } else if !self.mint_authority.is_signer {
            Err(AccountsError::AccountNotSigner(Role::MintAuthority))
        } else if !self.metadata.is_writable {
            Err(AccountsError::ConstraintMut(Role::Metadata))
        } else if !self.master_edition_metadata.is_writable {
            Err(AccountsError::ConstraintMut(Role::MasterEditionMetadata))
        } else if !self.mint.is_writable {
            Err(AccountsError::ConstraintMut(Role::Mint))
        } else if !self.token_account.is_writable {
            Err(AccountsError::ConstraintMut(Role::TokenAccount))
        } else if !self.mint_authority.is_writable {
            Err(AccountsError::ConstraintMut(Role::MintAuthority))
        } else {
            Ok(())
        }
    }
}

} // verus!
