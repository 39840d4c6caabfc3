use crate::arithmetic::untouched;
use crate::arithmetic::INPUT_TYPE;
use crate::error::VaultError;
use crate::key::Key;
use crate::laws::collect_adds_the_fee;
use crate::laws::distribute_grants_the_lesser;
use crate::laws::honest_part;
use crate::plaintext::lesser;
use crate::plaintext::Plaintexts;
use crate::session::Arithmetic;
use crate::transfer::accepts;
use crate::transfer::copy_ciphertext;
use crate::transfer::moved;
use crate::transfer::reported;
use crate::transfer::TransferOrder;
use crate::transfer::TransferRequest;
use crate::transition::asked_further;
use crate::transition::Committed;
use crate::vault::FeeVault;
use crate::vault::ZERO_HANDLE;
use anchor_lang::error::Error;
use vstd::prelude::*;

verus! {

/// The accounts of an initialisation.
#[derive(Clone, Copy, Debug, PartialEq, Eq)]
pub struct Initialize {
    /// The signer, who becomes the vault's authority.
    pub authority: Key,
    /// The account that funds the allocation of the record. It must be the signer.
    pub payer: Key,
    /// The token that the vault will account for.
    pub token_mint: Key,
    /// The token account in which the vault's fees will rest.
    pub vault_token_account: Key,
    /// What the store holds for the mint: nothing before the vault is opened, its record
    /// afterwards.
    pub fee_vault: Option<FeeVault>,
    /// The byte from which the vault's address is rebuilt.
    pub bump: u8,
}

impl Initialize {
    /// Why the initialisation is refused, if it is: an existing record first, then a signer
    /// who does not fund the allocation.
    pub open spec fn rejection(self) -> Option<VaultError> {
        if self.fee_vault is Some {
            Some(VaultError::AlreadyInitialized)
        } else if self.authority != self.payer {
            Some(VaultError::Unauthorized)
        } else {
            None
        }
    }

    /// The record that the initialisation writes.
    pub open spec fn opened(self) -> FeeVault {
        FeeVault::opened(self.authority, self.token_mint, self.vault_token_account, self.bump)
    }

    /// The accounts as a call of `initialize` leaves them: with the new record where the call
    /// goes through, untouched where it is refused.
    pub open spec fn after_call(self) -> Initialize {
        if self.rejection() is Some {
            self
        } else {
            Initialize { fee_vault: Some(self.opened()), ..self }
        }
    }

    /// Decides whether the initialisation may proceed.
    pub fn guard(&self) -> (verdict: Result<(), VaultError>)
        ensures
            match self.rejection() {
                Some(refusal) => verdict == Err::<(), VaultError>(refusal),
                None => verdict is Ok,
            },
    {
        if self.fee_vault.is_some() {
            Err(VaultError::AlreadyInitialized)
        } else if self.authority != self.payer {
            Err(VaultError::Unauthorized)
        } else {
            Ok(())
        }
    }
}

/// Opens the vault of a token mint: the record is written with the signer as authority,
/// both handle slots at the zero handle, and the vault not closed.
///
/// Refused with `AlreadyInitialized` where the mint has a record already, whatever its
/// state, and with `Unauthorized` where the signer is not the account that funds the
/// allocation. A refusal changes nothing.
pub fn initialize(ctx: &mut Initialize) -> (outcome: Result<(), VaultError>)
    ensures
        *final(ctx) == old(ctx).after_call(),
        match old(ctx).rejection() {
            Some(refusal) => outcome == Err::<(), VaultError>(refusal),
            None => outcome is Ok,
        },
{
    match ctx.guard() {
        Err(refusal) => {
            return Err(refusal);
        },
        Ok(_) => {},
    }
    ctx.fee_vault = Some(
        FeeVault::open(ctx.authority, ctx.token_mint, ctx.vault_token_account, ctx.bump),
    );
    Ok(())
}

/// The accounts of a fee collection.
#[derive(Clone, Copy, Debug, PartialEq, Eq)]
pub struct CollectFee {
    /// The signer, who pays the fee. Anyone may.
    pub payer: Key,
    /// The vault's record.
    pub fee_vault: FeeVault,
    /// The token account that is debited.
    pub from_token: Key,
    /// The token account that is credited. It must be the vault's custody account.
    pub vault_token_account: Key,
    /// The token. It must be the vault's mint.
    pub token_mint: Key,
}

impl CollectFee {
    /// Why the collection is refused before any service is asked, if it is: a closed vault
    /// first, then an account that is not the one on record.
    pub open spec fn rejection(self) -> Option<VaultError> {
        if self.fee_vault.is_closed {
            Some(VaultError::VaultClosed)
        } else if self.vault_token_account != self.fee_vault.vault_token_account
            || self.token_mint != self.fee_vault.token_mint {
            Some(VaultError::AccountMismatch)
        } else {
            None
        }
    }

    /// The movement that a collection asks of the token service: the fee's ciphertext, out
    /// of the payer's token account, into the vault's custody account, under the payer's
    /// signature.
    pub open spec fn payment(self, ciphertext: Seq<u8>, decimals: u8) -> TransferOrder {
        TransferOrder {
            source: self.from_token,
            destination: self.fee_vault.vault_token_account,
            mint: self.fee_vault.token_mint,
            authority: self.payer,
            ciphertext,
            input_type: INPUT_TYPE,
            decimals,
        }
    }

    /// Decides whether the collection may proceed.
    pub fn guard(&self) -> (verdict: Result<(), VaultError>)
        ensures
            match self.rejection() {
                Some(refusal) => verdict == Err::<(), VaultError>(refusal),
                None => verdict is Ok,
            },
    {
        if self.fee_vault.is_closed {
            Err(VaultError::VaultClosed)
        } else if !self.fee_vault.is_custody(&self.vault_token_account) || !self.fee_vault.is_mint(
            &self.token_mint,
        ) {
            Err(VaultError::AccountMismatch)
        } else {
            Ok(())
        }
    }

    /// Builds the request for the token service.
    pub fn payment_request(&self, ciphertext: Vec<u8>, decimals: u8) -> (request: TransferRequest)
        ensures
            request@ == self.payment(ciphertext@, decimals),
    {
        TransferRequest {
            source: self.from_token,
            destination: self.fee_vault.vault_token_account,
            mint: self.fee_vault.token_mint,
            authority: self.payer,
            ciphertext,
            input_type: INPUT_TYPE,
            decimals,
        }
    }
}

/// Credits a fee to the vault.
///
/// `transfer` is the token service: it is handed the request for the movement and reports
/// how the movement went. It moves the fee's ciphertext from the payer's token account into
/// the custody account. Then the same ciphertext is registered with the arithmetic service, the
/// service adds it to the running total, and the handle of the sum becomes the vault's
/// total.
///
/// A closed vault or a foreign account is refused before any service is asked: `transfer`
/// need not even be callable then, and is not called. A failure of either service is
/// handed on as it came. In every refusal and failure the record is
/// left as it was; where the arithmetic service fails, the tokens have moved already, and
/// it is for the ledger to undo the movement with the rest of the transaction.
///
/// Of the amounts the contract speaks under a condition: whatever the handles stand for,
/// if every answer that the session has received names what it is meant to, then the total
/// has grown by the amount of the fee.
pub fn collect_fee<F>(
    ctx: &mut CollectFee,
    service: &mut Arithmetic<'_>,
    transfer: F,
    encrypted_amount: Vec<u8>,
    decimals: u8,
) -> (outcome: Result<(), VaultError>) where F: FnOnce(TransferRequest) -> Result<(), Error>
    requires
        old(ctx).rejection() is None ==> accepts(
            transfer,
            old(ctx).payment(encrypted_amount@, decimals),
        ),
    ensures
        final(service).same_parties(old(service)),
        outcome is Err ==> *final(ctx) == *old(ctx),
        old(ctx).fee_vault.is_closed ==> outcome == Err::<(), VaultError>(VaultError::VaultClosed)
            && *final(ctx) == *old(ctx),
        outcome is Ok ==> forall|plain: Plaintexts| #[trigger]
            plain.honest(final(service).asked()) ==> {
                &&& plain.total(final(ctx).fee_vault) == plain.total(old(ctx).fee_vault)
                    + plain.decrypt_blob(encrypted_amount@)
                &&& plain.pending(final(ctx).fee_vault) == plain.pending(old(ctx).fee_vault)
                &&& plain.solvent(old(ctx).fee_vault) ==> plain.solvent(final(ctx).fee_vault)
            },
        match old(ctx).rejection() {
            Some(refusal) => outcome == Err::<(), VaultError>(refusal) && untouched(
                old(service),
                final(service),
            ),
            None => exists|step: Committed|
                {
                    &&& #[trigger] step.collects(encrypted_amount@)
                    &&& match outcome {
                        Ok(_) => {
                            &&& *final(ctx) == (CollectFee {
                                fee_vault: step.after(old(ctx).fee_vault),
                                ..*old(ctx)
                            })
                            &&& moved(transfer, old(ctx).payment(encrypted_amount@, decimals))
                            &&& final(service).asked() == old(service).asked()
                                + step.conversation(old(ctx).fee_vault)
                        },
                        Err(VaultError::Transfer(failure)) => {
                            &&& reported(
                                transfer,
                                old(ctx).payment(encrypted_amount@, decimals),
                                Err(failure),
                            )
                            &&& untouched(old(service), final(service))
                        },
                        Err(VaultError::ArithmeticService(failure)) => {
                            &&& final(service).last_failure() == Some(failure)
                            &&& moved(transfer, old(ctx).payment(encrypted_amount@, decimals))
                            &&& exists|answered: int|
                                answered < step.conversation(old(ctx).fee_vault).len()
                                    && #[trigger] asked_further(
                                    old(service).asked(),
                                    final(service).asked(),
                                    step.conversation(old(ctx).fee_vault),
                                    answered,
                                )
                        },
                        Err(_) => false,
                    }
                },
        },
{
    match ctx.guard() {
        Err(refusal) => {
            return Err(refusal);
        },
        Ok(_) => {},
    }
    let ghost before = ctx.fee_vault;
    let ghost log = service.asked();
    let ghost blob = encrypted_amount@;
    let ghost order = ctx.payment(blob, decimals);
    let request = ctx.payment_request(copy_ciphertext(&encrypted_amount), decimals);
    let ghost handed = request;
    let report = transfer(request);
    assert(reported(transfer, order, report)) by {
        assert(handed@ == order && call_ensures(transfer, (handed,), report));
    }
    match report {
        Err(failure) => {
            assert((Committed::Collect { ciphertext: blob, fee: 0, total: 0 }).collects(blob));
            return Err(VaultError::Transfer(failure));
        },
        Ok(_) => {},
    }
    let fee = match service.materialize(encrypted_amount) {
        Ok(handle) => handle,
        Err(failure) => {
            proof {
                let step = Committed::Collect { ciphertext: blob, fee: 0, total: 0 };
                assert(step.collects(blob));
                assert(service.asked() =~= log + step.conversation(before).take(0));
                assert(asked_further(log, service.asked(), step.conversation(before), 0));
            }
            return Err(failure);
        },
    };
    let total = match service.add(ctx.fee_vault.total_fees_handle, fee) {
        Ok(handle) => handle,
        Err(failure) => {
            proof {
                let step = Committed::Collect { ciphertext: blob, fee, total: 0 };
                assert(step.collects(blob));
                assert(service.asked() =~= log + step.conversation(before).take(1));
                assert(asked_further(log, service.asked(), step.conversation(before), 1));
            }
            return Err(failure);
        },
    };
    ctx.fee_vault.record_total(total);
    proof {
        let step = Committed::Collect { ciphertext: blob, fee, total };
        assert(step.collects(blob));
        assert(service.asked() =~= log + step.conversation(before));
        assert forall|plain: Plaintexts| #[trigger] plain.honest(service.asked()) implies {
            &&& plain.total(ctx.fee_vault) == plain.total(before) + plain.decrypt_blob(blob)
            &&& plain.pending(ctx.fee_vault) == plain.pending(before)
            &&& plain.solvent(before) ==> plain.solvent(ctx.fee_vault)
        } by {
            honest_part(plain, log, step.conversation(before));
            collect_adds_the_fee(plain, before, blob, fee, total);
        }
    }
    Ok(())
}

/// The accounts of a distribution.
#[derive(Clone, Copy, Debug, PartialEq, Eq)]
pub struct Distribute {
    /// The signer. It must be the vault's authority.
    pub authority: Key,
    /// The vault's record.
    pub fee_vault: FeeVault,
    /// The token account that is debited. It must be the vault's custody account.
    pub vault_token_account: Key,
    /// The token account that is credited.
    pub recipient_token_account: Key,
    /// The token. It must be the vault's mint.
    pub token_mint: Key,
}

impl Distribute {
    /// Why the distribution is refused before any service is asked, if it is: a closed
    /// vault first, then a signer who is not the authority, then an account that is not
    /// the one on record.
    pub open spec fn rejection(self) -> Option<VaultError> {
        if self.fee_vault.is_closed {
            Some(VaultError::VaultClosed)
        } else if self.authority != self.fee_vault.authority {
            Some(VaultError::Unauthorized)
        } else if self.vault_token_account != self.fee_vault.vault_token_account
            || self.token_mint != self.fee_vault.token_mint {
            Some(VaultError::AccountMismatch)
        } else {
            None
        }
    }

    /// The movement that a distribution asks of the token service: the requested
    /// ciphertext, out of the vault's custody account, to the recipient, under the
    /// authority's signature.
    pub open spec fn payout(self, ciphertext: Seq<u8>, decimals: u8) -> TransferOrder {
        TransferOrder {
            source: self.fee_vault.vault_token_account,
            destination: self.recipient_token_account,
            mint: self.fee_vault.token_mint,
            authority: self.fee_vault.authority,
            ciphertext,
            input_type: INPUT_TYPE,
            decimals,
        }
    }

    /// Decides whether the distribution may proceed.
    pub fn guard(&self) -> (verdict: Result<(), VaultError>)
        ensures
            match self.rejection() {
                Some(refusal) => verdict == Err::<(), VaultError>(refusal),
                None => verdict is Ok,
            },
    {
        if self.fee_vault.is_closed {
            Err(VaultError::VaultClosed)
        } else if !self.fee_vault.is_authority(&self.authority) {
            Err(VaultError::Unauthorized)
        } else if !self.fee_vault.is_custody(&self.vault_token_account) || !self.fee_vault.is_mint(
            &self.token_mint,
        ) {
            Err(VaultError::AccountMismatch)
        } else {
            Ok(())
        }
    }

    /// Builds the request for the token service.
    pub fn payout_request(&self, ciphertext: Vec<u8>, decimals: u8) -> (request: TransferRequest)
        ensures
            request@ == self.payout(ciphertext@, decimals),
    {
        TransferRequest {
            source: self.fee_vault.vault_token_account,
            destination: self.recipient_token_account,
            mint: self.fee_vault.token_mint,
            authority: self.fee_vault.authority,
            ciphertext,
            input_type: INPUT_TYPE,
            decimals,
        }
    }
}

/// Pays out of the vault the lesser of the requested amount and what is left to
/// distribute, without learning which of the two it was.
///
/// `transfer` is the token service: it is handed the request for the movement and reports
/// how the movement went. The requested ciphertext is registered with the arithmetic service; what is left is the
/// total less the pending sum; the service compares the two and selects, all under
/// encryption. Then the token service moves the requested ciphertext from the custody
/// account to the recipient, and the granted amount is added to the pending sum. What moves
/// is the requested ciphertext, not the granted amount: the token service is relied upon
/// not to move more than the custody account holds, and the pending sum says what the
/// vault counts as paid out.
///
/// A closed vault, a signer who is not the authority or a foreign account is refused before
/// any service is asked: `transfer` need not even be callable then, and is not called. A
/// failure of either service is handed on as it came. In every
/// refusal and failure the record is left as it was.
///
/// Of the amounts the contract speaks under a condition: whatever the handles stand for,
/// if every answer that the session has received names what it is meant to, and the
/// pending sum was at most the total, then the pending sum has grown by the lesser of the
/// requested amount and what was left, and is still at most the total.
pub fn distribute<F>(
    ctx: &mut Distribute,
    service: &mut Arithmetic<'_>,
    transfer: F,
    encrypted_requested: Vec<u8>,
    decimals: u8,
) -> (outcome: Result<(), VaultError>) where F: FnOnce(TransferRequest) -> Result<(), Error>
    requires
        old(ctx).rejection() is None ==> accepts(
            transfer,
            old(ctx).payout(encrypted_requested@, decimals),
        ),
    ensures
        final(service).same_parties(old(service)),
        outcome is Err ==> *final(ctx) == *old(ctx),
        old(ctx).fee_vault.is_closed ==> outcome == Err::<(), VaultError>(VaultError::VaultClosed)
            && *final(ctx) == *old(ctx),
        outcome is Ok ==> forall|plain: Plaintexts| #[trigger]
            plain.honest(final(service).asked()) && plain.solvent(old(ctx).fee_vault) ==> {
                &&& plain.pending(final(ctx).fee_vault) - plain.pending(old(ctx).fee_vault)
                    == lesser(
                    plain.decrypt_blob(encrypted_requested@) as int,
                    plain.remaining(old(ctx).fee_vault),
                )
                &&& plain.total(final(ctx).fee_vault) == plain.total(old(ctx).fee_vault)
                &&& plain.solvent(final(ctx).fee_vault)
            },
        match old(ctx).rejection() {
            Some(refusal) => outcome == Err::<(), VaultError>(refusal) && untouched(
                old(service),
                final(service),
            ),
            None => exists|step: Committed|
                {
                    &&& #[trigger] step.distributes(encrypted_requested@)
                    &&& match outcome {
                        Ok(_) => {
                            &&& *final(ctx) == (Distribute {
                                fee_vault: step.after(old(ctx).fee_vault),
                                ..*old(ctx)
                            })
                            &&& moved(transfer, old(ctx).payout(encrypted_requested@, decimals))
                            &&& final(service).asked() == old(service).asked()
                                + step.conversation(old(ctx).fee_vault)
                        },
                        Err(VaultError::Transfer(failure)) => {
                            &&& reported(
                                transfer,
                                old(ctx).payout(encrypted_requested@, decimals),
                                Err(failure),
                            )
                            &&& asked_further(
                                old(service).asked(),
                                final(service).asked(),
                                step.conversation(old(ctx).fee_vault),
                                step.conversation(old(ctx).fee_vault).len() - 1,
                            )
                        },
                        Err(VaultError::ArithmeticService(failure)) => exists|answered: int|
                            {
                                &&& final(service).last_failure() == Some(failure)
                                &&& answered < step.conversation(old(ctx).fee_vault).len()
                                &&& #[trigger] asked_further(
                                    old(service).asked(),
                                    final(service).asked(),
                                    step.conversation(old(ctx).fee_vault),
                                    answered,
                                )
                                &&& answered == step.conversation(old(ctx).fee_vault).len() - 1
                                    ==> moved(
                                    transfer,
                                    old(ctx).payout(encrypted_requested@, decimals),
                                )
                            },
                        Err(_) => false,
                    }
                },
        },
{
    match ctx.guard() {
        Err(refusal) => {
            return Err(refusal);
        },
        Ok(_) => {},
    }
    let ghost before = ctx.fee_vault;
    let ghost log = service.asked();
    let ghost blob = encrypted_requested@;
    let ghost order = ctx.payout(blob, decimals);
    let requested = match service.materialize(copy_ciphertext(&encrypted_requested)) {
        Ok(handle) => handle,
        Err(failure) => {
            proof {
                let step = stalled(blob, 0, 0, 0, 0);
                assert(step.distributes(blob));
                assert(service.asked() =~= log + step.conversation(before).take(0));
                assert(asked_further(log, service.asked(), step.conversation(before), 0));
            }
            return Err(failure);
        },
    };
    let remaining = match service.sub(
        ctx.fee_vault.total_fees_handle,
        ctx.fee_vault.pending_distribution_handle,
    ) {
        Ok(handle) => handle,
        Err(failure) => {
            proof {
                let step = stalled(blob, requested, 0, 0, 0);
                assert(step.distributes(blob));
                assert(service.asked() =~= log + step.conversation(before).take(1));
                assert(asked_further(log, service.asked(), step.conversation(before), 1));
            }
            return Err(failure);
        },
    };
    let sufficient = match service.ge(remaining, requested) {
        Ok(handle) => handle,
        Err(failure) => {
            proof {
                let step = stalled(blob, requested, remaining, 0, 0);
                assert(step.distributes(blob));
                assert(service.asked() =~= log + step.conversation(before).take(2));
                assert(asked_further(log, service.asked(), step.conversation(before), 2));
            }
            return Err(failure);
        },
    };
    let actual = match service.select(sufficient, requested, remaining) {
        Ok(handle) => handle,
        Err(failure) => {
            proof {
                let step = stalled(blob, requested, remaining, sufficient, 0);
                assert(step.distributes(blob));
                assert(service.asked() =~= log + step.conversation(before).take(3));
                assert(asked_further(log, service.asked(), step.conversation(before), 3));
            }
            return Err(failure);
        },
    };
    proof {
        let step = stalled(blob, requested, remaining, sufficient, actual);
        assert(service.asked() =~= log + step.conversation(before).take(4));
    }
    let request = ctx.payout_request(encrypted_requested, decimals);
    let ghost handed = request;
    let report = transfer(request);
    assert(reported(transfer, order, report)) by {
        assert(handed@ == order && call_ensures(transfer, (handed,), report));
    }
    match report {
        Err(failure) => {
            assert(stalled(blob, requested, remaining, sufficient, actual).distributes(blob));
            return Err(VaultError::Transfer(failure));
        },
        Ok(_) => {},
    }
    let pending = match service.add(ctx.fee_vault.pending_distribution_handle, actual) {
        Ok(handle) => handle,
        Err(failure) => {
            proof {
                let step = stalled(blob, requested, remaining, sufficient, actual);
                assert(step.distributes(blob));
                assert(asked_further(log, service.asked(), step.conversation(before), 4));
            }
            return Err(failure);
        },
    };
    ctx.fee_vault.record_pending(pending);
    proof {
        let step = Committed::Distribute {
            ciphertext: blob,
            requested,
            remaining,
            sufficient,
            actual,
            pending,
        };
        assert(step.distributes(blob));
        assert(service.asked() =~= log + step.conversation(before));
        assert forall|plain: Plaintexts| #[trigger]
            plain.honest(service.asked()) && plain.solvent(before) implies {
            &&& plain.pending(ctx.fee_vault) - plain.pending(before) == lesser(
                plain.decrypt_blob(blob) as int,
                plain.remaining(before),
            )
            &&& plain.total(ctx.fee_vault) == plain.total(before)
            &&& plain.solvent(ctx.fee_vault)
        } by {
            honest_part(plain, log, step.conversation(before));
            distribute_grants_the_lesser(
                plain,
                before,
                blob,
                requested,
                remaining,
                sufficient,
                actual,
                pending,
            );
        }
    }
    Ok(())
}

/// A distribution that has not got as far as its last request. The pending sum, which only
/// that request gives, is left open.
spec fn stalled(
    ciphertext: Seq<u8>,
    requested: u128,
    remaining: u128,
    sufficient: u128,
    actual: u128,
) -> Committed {
    Committed::Distribute { ciphertext, requested, remaining, sufficient, actual, pending: 0 }
}

/// The accounts of a settlement.
#[derive(Clone, Copy, Debug, PartialEq, Eq)]
pub struct SettleEpoch {
    /// The signer. It must be the vault's authority.
    pub authority: Key,
    /// The vault's record.
    pub fee_vault: FeeVault,
}

impl SettleEpoch {
    /// Why the settlement is refused, if it is: a closed vault first, then a signer who is
    /// not the authority.
    pub open spec fn rejection(self) -> Option<VaultError> {
        if self.fee_vault.is_closed {
            Some(VaultError::VaultClosed)
        } else if self.authority != self.fee_vault.authority {
            Some(VaultError::Unauthorized)
        } else {
            None
        }
    }

    /// The accounts as a call of `settle_epoch` leaves them: with the settled record where
    /// the call goes through, untouched where it is refused.
    pub open spec fn after_call(self) -> SettleEpoch {
        if self.rejection() is Some {
            self
        } else {
            SettleEpoch { fee_vault: Committed::Settle.after(self.fee_vault), ..self }
        }
    }

    /// Decides whether the settlement may proceed.
    pub fn guard(&self) -> (verdict: Result<(), VaultError>)
        ensures
            match self.rejection() {
                Some(refusal) => verdict == Err::<(), VaultError>(refusal),
                None => verdict is Ok,
            },
    {
        if self.fee_vault.is_closed {
            Err(VaultError::VaultClosed)
        } else if !self.fee_vault.is_authority(&self.authority) {
            Err(VaultError::Unauthorized)
        } else {
            Ok(())
        }
    }
}

/// Ends the epoch: both handle slots go back to the zero handle and the vault is closed for
/// good. The encrypted accounting of the epoch is dropped, not reconciled.
///
/// Refused with `VaultClosed` on a vault that is closed already and with `Unauthorized`
/// for a signer who is not the authority. A refusal changes nothing.
pub fn settle_epoch(ctx: &mut SettleEpoch) -> (outcome: Result<(), VaultError>)
    ensures
        *final(ctx) == old(ctx).after_call(),
        old(ctx).fee_vault.is_closed ==> outcome == Err::<(), VaultError>(VaultError::VaultClosed)
            && *final(ctx) == *old(ctx),
        match old(ctx).rejection() {
            Some(refusal) => outcome == Err::<(), VaultError>(refusal),
            None => {
                &&& outcome is Ok
                &&& final(ctx).fee_vault.total_fees_handle == ZERO_HANDLE
                &&& final(ctx).fee_vault.pending_distribution_handle == ZERO_HANDLE
                &&& final(ctx).fee_vault.is_closed
                &&& forall|plain: Plaintexts|
                    #![trigger plain.total(final(ctx).fee_vault)]
                    #![trigger plain.pending(final(ctx).fee_vault)]
                    plain.total(final(ctx).fee_vault) == 0 && plain.pending(final(ctx).fee_vault)
                        == 0
            },
        },
{
    match ctx.guard() {
        Err(refusal) => {
            return Err(refusal);
        },
        Ok(_) => {},
    }
    ctx.fee_vault.seal();
    Ok(())
}

} // verus!
