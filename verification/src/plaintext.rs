use crate::session::Query;
use crate::vault::FeeVault;
use crate::vault::ZERO_HANDLE;
use vstd::prelude::*;

verus! {

/// The lesser of two numbers.
pub open spec fn lesser(a: int, b: int) -> int {
    if a <= b {
        a
    } else {
        b
    }
}

/// What the ciphertexts and the handles stand for. Only the arithmetic service knows it;
/// here it is a parameter of the statements that are made about the vault.
pub struct Plaintexts {
    /// The amount that a ciphertext encrypts.
    pub blob: spec_fn(Seq<u8>) -> nat,
    /// The amount that a handle other than the zero handle names.
    pub amount: spec_fn(u128) -> nat,
    /// The truth value that the handle of a comparison names.
    pub truth: spec_fn(u128) -> bool,
}

impl Plaintexts {
    /// The amount that a ciphertext encrypts.
    pub open spec fn decrypt_blob(self, ciphertext: Seq<u8>) -> nat {
        (self.blob)(ciphertext)
    }

    /// The amount that a handle names. The zero handle names zero.
    pub open spec fn decrypt(self, handle: u128) -> nat {
        if handle == ZERO_HANDLE {
            0
        } else {
            (self.amount)(handle)
        }
    }

    /// The truth value that the handle of a comparison names.
    pub open spec fn decrypt_bool(self, handle: u128) -> bool {
        (self.truth)(handle)
    }

    /// Whether an answer of the service names what the service is meant to compute:
    /// a registered ciphertext, its amount; a sum, the sum; a difference, the difference,
    /// where it is not negative (nothing is said of a subtraction that would go below
    /// zero); a comparison, its truth; a selection, the selected amount.
    pub open spec fn honors(self, query: Query) -> bool {
        match query {
            Query::Materialize { ciphertext, handle, .. } => self.decrypt(handle) == self.decrypt_blob(
                ciphertext,
            ),
            Query::Add { lhs, rhs, handle, .. } => self.decrypt(handle) == self.decrypt(lhs)
                + self.decrypt(rhs),
            Query::Sub { lhs, rhs, handle, .. } => self.decrypt(lhs) >= self.decrypt(rhs)
                ==> self.decrypt(handle) == self.decrypt(lhs) - self.decrypt(rhs),
            Query::Ge { lhs, rhs, handle, .. } => self.decrypt_bool(handle) == (self.decrypt(lhs)
                >= self.decrypt(rhs)),
            Query::Select { condition, if_true, if_false, handle, .. } => self.decrypt(handle) == if self.decrypt_bool(
                condition,
            ) {
                self.decrypt(if_true)
            } else {
                self.decrypt(if_false)
            },
        }
    }

    /// Whether every answer in a list of answered requests names what it is meant to.
    pub open spec fn honest(self, asked: Seq<Query>) -> bool {
        forall|i: int| 0 <= i < asked.len() ==> self.honors(#[trigger] asked[i])
    }

    /// The amount of fees collected in the epoch.
    pub open spec fn total(self, vault: FeeVault) -> nat {
        self.decrypt(vault.total_fees_handle)
    }

    /// The amount already committed to distribution in the epoch.
    pub open spec fn pending(self, vault: FeeVault) -> nat {
        self.decrypt(vault.pending_distribution_handle)
    }

    /// The amount that is left to distribute, where the vault has not committed more than it
    /// collected.
    pub open spec fn remaining(self, vault: FeeVault) -> int {
        self.total(vault) - self.pending(vault)
    }

    /// The vault has not committed more to distribution than it has collected.
    pub open spec fn solvent(self, vault: FeeVault) -> bool {
        self.pending(vault) <= self.total(vault)
    }
}

} // verus!
