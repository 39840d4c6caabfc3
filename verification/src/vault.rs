use crate::key::Key;
use vstd::prelude::*;

verus! {

/// The handle that stands for an encrypted zero. A freshly opened vault and a settled one
/// hold it in both slots.
///
/// The arithmetic service's own types call a zero handle "not initialised". That the
/// service counts it as zero when it adds and subtracts is the convention that the vault
/// relies on; every statement about amounts reads it so (`Plaintexts::decrypt`) and holds
/// of a service that does.
pub const ZERO_HANDLE: u128 = 0;

/// The record of one fee vault. There is one per token mint.
///
/// Amounts never appear here: the two slots hold handles, 128-bit names of ciphertexts that
/// the arithmetic service keeps.
#[derive(Clone, Copy, Debug, PartialEq, Eq)]
pub struct FeeVault {
    /// The only principal that may distribute and settle.
    pub authority: Key,
    /// The confidential token that the vault accounts for.
    pub token_mint: Key,
    /// The token account in which the collected fees rest.
    pub vault_token_account: Key,
    /// Handle of the encrypted sum of all fees collected in this epoch.
    pub total_fees_handle: u128,
    /// Handle of the encrypted sum already committed to distribution in this epoch.
    pub pending_distribution_handle: u128,
    /// Set by settlement, never cleared.
    pub is_closed: bool,
    /// The byte from which the vault's address is rebuilt.
    pub bump: u8,
}

impl FeeVault {
    /// The record of a vault that has just been opened: both slots hold the zero handle and
    /// the vault is not closed.
    pub open spec fn opened(authority: Key, token_mint: Key, vault_token_account: Key, bump: u8) -> FeeVault {
        FeeVault {
            authority,
            token_mint,
            vault_token_account,
            total_fees_handle: ZERO_HANDLE,
            pending_distribution_handle: ZERO_HANDLE,
            is_closed: false,
            bump,
        }
    }

    /// This record with another handle in the total slot.
    pub open spec fn with_total(self, handle: u128) -> FeeVault {
        FeeVault { total_fees_handle: handle, ..self }
    }

    /// This record with another handle in the pending slot.
    pub open spec fn with_pending(self, handle: u128) -> FeeVault {
        FeeVault { pending_distribution_handle: handle, ..self }
    }

    /// This record after settlement: both slots zeroed, the vault closed for good.
    pub open spec fn settled(self) -> FeeVault {
        FeeVault {
            total_fees_handle: ZERO_HANDLE,
            pending_distribution_handle: ZERO_HANDLE,
            is_closed: true,
            ..self
        }
    }

    /// Opens a vault.
    pub fn open(authority: Key, token_mint: Key, vault_token_account: Key, bump: u8) -> (vault: FeeVault)
        ensures
            vault == FeeVault::opened(authority, token_mint, vault_token_account, bump),
    {
        FeeVault {
            authority,
            token_mint,
            vault_token_account,
            total_fees_handle: ZERO_HANDLE,
            pending_distribution_handle: ZERO_HANDLE,
            is_closed: false,
            bump,
        }
    }

    /// Stores the handle of the new running total, as answered by the arithmetic service.
    pub fn record_total(&mut self, handle: u128)
        ensures
            *final(self) == old(self).with_total(handle),
    {
        self.total_fees_handle = handle;
    }

    /// Stores the handle of the new pending sum, as answered by the arithmetic service.
    pub fn record_pending(&mut self, handle: u128)
        ensures
            *final(self) == old(self).with_pending(handle),
    {
        self.pending_distribution_handle = handle;
    }

    /// Zeroes both slots and closes the vault.
    pub fn seal(&mut self)
        ensures
            *final(self) == old(self).settled(),
    {
        self.total_fees_handle = ZERO_HANDLE;
        self.pending_distribution_handle = ZERO_HANDLE;
        self.is_closed = true;
    }

    /// Whether `signer` is the vault's authority.
    pub fn is_authority(&self, signer: &Key) -> (yes: bool)
        ensures
            yes == (self.authority == *signer),
    {
        self.authority == *signer
    }

    /// Whether `account` is the token account in which the vault's fees rest.
    pub fn is_custody(&self, account: &Key) -> (yes: bool)
        ensures
            yes == (self.vault_token_account == *account),
    {
        self.vault_token_account == *account
    }

    /// Whether `mint` is the token that the vault accounts for.
    pub fn is_mint(&self, mint: &Key) -> (yes: bool)
        ensures
            yes == (self.token_mint == *mint),
    {
        self.token_mint == *mint
    }
}

} // verus!
