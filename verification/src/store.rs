use crate::error::VaultError;
use crate::key::Key;
use crate::machine::initialize;
use crate::machine::Initialize;
use crate::vault::FeeVault;
use vstd::prelude::*;

verus! {

/// The records of all vaults, one per token mint at most, found by mint.
pub struct VaultStore {
    vaults: Vec<FeeVault>,
}

/// The mints of a list of records, in the order of the list.
pub open spec fn mints_of(vaults: Seq<FeeVault>) -> Seq<Key> {
    Seq::new(vaults.len(), |i: int| vaults[i].token_mint)
}

impl View for VaultStore {
    type V = Map<Key, FeeVault>;

    /// The store as a map from token mint to record.
    closed spec fn view(&self) -> Map<Key, FeeVault> {
        Map::new(
            |mint: Key| self.mints().contains(mint),
            |mint: Key| self.vaults@[self.mints().index_of(mint)],
        )
    }
}

impl VaultStore {
    /// The mints of the records, in the order in which the records are kept.
    pub closed spec fn mints(self) -> Seq<Key> {
        mints_of(self.vaults@)
    }

    /// No two records are for the same mint.
    #[verifier::type_invariant]
    spec fn one_record_per_mint(self) -> bool {
        self.mints().no_duplicates()
    }

    /// What the store holds for a mint: its record, or nothing.
    pub open spec fn slot(self, mint: Key) -> Option<FeeVault> {
        if self@.contains_key(mint) {
            Some(self@[mint])
        } else {
            None
        }
    }

    /// Every record is filed under its own mint.
    pub proof fn filed_by_mint(self, mint: Key)
        requires
            self@.contains_key(mint),
        ensures
            self@[mint].token_mint == mint,
    {
        let i = self.mints().index_of(mint);
        assert(0 <= i < self.mints().len() && self.mints()[i] == mint);
    }

    /// An empty store.
    pub fn new() -> (store: VaultStore)
        ensures
            store@ == Map::<Key, FeeVault>::empty(),
    {
        let store = VaultStore { vaults: Vec::new() };
        assert(store@ =~= Map::<Key, FeeVault>::empty());
        store
    }

    /// The number of records.
    pub fn len(&self) -> (count: usize)
        ensures
            self@.dom().finite(),
            count == self@.dom().len(),
    {
        proof {
            use_type_invariant(self);
            self.mints().unique_seq_to_set();
            vstd::seq_lib::seq_to_set_is_finite(self.mints());
            assert(self@.dom() =~= self.mints().to_set());
        }
        self.vaults.len()
    }

    /// Where the record of a mint is kept, if the store has one.
    fn position(&self, mint: &Key) -> (place: Option<usize>)
        ensures
            match place {
                Some(i) => i < self.vaults@.len() && self.vaults@[i as int].token_mint == *mint,
                None => !self.mints().contains(*mint),
            },
    {
        let mut i: usize = 0;
        while i < self.vaults.len()
            invariant
                i <= self.vaults@.len(),
                forall|j: int| 0 <= j < i ==> self.vaults@[j].token_mint != *mint,
            decreases self.vaults@.len() - i,
        {
            if self.vaults[i].token_mint == *mint {
                return Some(i);
            }
            i += 1;
        }
        None
    }

    /// Looks up the record of a mint.
    pub fn load(&self, mint: &Key) -> (found: Option<FeeVault>)
        ensures
            found == self.slot(*mint),
            found matches Some(vault) ==> vault.token_mint == *mint,
    {
        match self.position(mint) {
            Some(i) => {
                proof {
                    use_type_invariant(self);
                    let chosen = self.mints().index_of(*mint);
                    assert(self.mints()[i as int] == *mint);
                    assert(chosen == i);
                }
                Some(self.vaults[i])
            },
            None => None,
        }
    }

    /// Writes a record under its mint, in place of the record that the mint had, if it had
    /// one. No other record changes.
    pub fn save(&mut self, vault: FeeVault)
        ensures
            final(self)@ == old(self)@.insert(vault.token_mint, vault),
    {
        proof {
            use_type_invariant(&*self);
        }
        let ghost before = *self;
        let place = self.position(&vault.token_mint);
        let mut vaults: Vec<FeeVault> = Vec::new();
        core::mem::swap(&mut self.vaults, &mut vaults);
        match place {
            Some(i) => {
                vaults[i] = vault;
                proof {
                    assert(mints_of(vaults@) =~= before.mints());
                }
                self.vaults = vaults;
                proof {
                    assert(self.mints()[i as int] == vault.token_mint);
                    assert forall|mint: Key| #[trigger]
                        self.mints().contains(mint) && mint != vault.token_mint implies self.vaults@[self.mints().index_of(
                        mint,
                    )] == before.vaults@[before.mints().index_of(mint)] by {
                        let chosen = self.mints().index_of(mint);
                        assert(self.mints()[chosen] == mint);
                    }
                    assert(self@ =~= before@.insert(vault.token_mint, vault));
                }
            },
            None => {
                vaults.push(vault);
                proof {
                    assert(mints_of(vaults@) =~= before.mints().push(vault.token_mint));
                }
                self.vaults = vaults;
                proof {
                    let last = before.mints().len() as int;
                    assert(self.mints()[last] == vault.token_mint);
                    assert forall|mint: Key| #[trigger]
                        self.mints().contains(mint) <==> (before.mints().contains(mint) || mint
                            == vault.token_mint) by {
                        if before.mints().contains(mint) {
                            let at = before.mints().index_of(mint);
                            assert(self.mints()[at] == mint);
                        }
                    }
                    assert forall|mint: Key| #[trigger]
                        before.mints().contains(mint) implies self.vaults@[self.mints().index_of(
                        mint,
                    )] == before.vaults@[before.mints().index_of(mint)] by {
                        let chosen = self.mints().index_of(mint);
                        let earlier = before.mints().index_of(mint);
                        assert(self.mints()[earlier] == mint);
                        assert(self.mints()[chosen] == mint);
                        assert(chosen == earlier);
                    }
                    assert(self.vaults@[self.mints().index_of(vault.token_mint)] == vault);
                    assert(self@ =~= before@.insert(vault.token_mint, vault));
                }
            },
        }
    }

    /// Opens the vault of a token mint in the store: `initialize` on what the store holds
    /// for the mint. Where the mint has a record already the call is refused with
    /// `AlreadyInitialized`, and the store is left as it was.
    pub fn open(
        &mut self,
        authority: Key,
        payer: Key,
        token_mint: Key,
        vault_token_account: Key,
        bump: u8,
    ) -> (outcome: Result<(), VaultError>)
        ensures
            ({
                let accounts = Initialize {
                    authority,
                    payer,
                    token_mint,
                    vault_token_account,
                    fee_vault: old(self).slot(token_mint),
                    bump,
                };
                match accounts.rejection() {
                    Some(refusal) => outcome == Err::<(), VaultError>(refusal) && final(self)@ == old(
                        self,
                    )@,
                    None => outcome is Ok && final(self)@ == old(self)@.insert(
                        token_mint,
                        accounts.opened(),
                    ),
                }
            }),
    {
        let mut accounts = Initialize {
            authority,
            payer,
            token_mint,
            vault_token_account,
            fee_vault: self.load(&token_mint),
            bump,
        };
        match initialize(&mut accounts) {
            Err(refusal) => Err(refusal),
            Ok(_) => {
                match accounts.fee_vault {
                    Some(vault) => {
                        self.save(vault);
                    },
                    None => {},
                }
                Ok(())
            },
        }
    }
}

} // verus!
