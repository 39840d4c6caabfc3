use crate::error::VaultError;
use crate::key::Key;
use crate::machine::CollectFee;
use crate::machine::Distribute;
use crate::machine::Initialize;
use crate::machine::SettleEpoch;
use crate::plaintext::lesser;
use crate::plaintext::Plaintexts;
use crate::session::Query;
use crate::transition::Committed;
use crate::vault::FeeVault;
use vstd::prelude::*;

verus! {

/// The record after the transitions of `history` have committed one after the other,
/// starting from `start`.
pub open spec fn replay(start: FeeVault, history: Seq<Committed>) -> FeeVault
    decreases history.len(),
{
    if history.len() == 0 {
        start
    } else {
        history.last().after(replay(start, history.drop_last()))
    }
}

/// Whether, in the course of `history` from `start`, the arithmetic service answered every
/// request with a handle that names what it is meant to.
pub open spec fn honest_history(plain: Plaintexts, start: FeeVault, history: Seq<Committed>) -> bool {
    forall|i: int|
        0 <= i < history.len() ==> plain.honest(
            (#[trigger] history[i]).conversation(replay(start, history.take(i))),
        )
}

/// Where every answer in a list names what it is meant to, so does every answer in its
/// later part.
pub proof fn honest_part(plain: Plaintexts, earlier: Seq<Query>, later: Seq<Query>)
    requires
        plain.honest(earlier + later),
    ensures
        plain.honest(later),
{
    assert forall|i: int| 0 <= i < later.len() implies plain.honors(#[trigger] later[i]) by {
        assert((earlier + later)[earlier.len() + i] == later[i]);
    }
}

/// A newly opened vault has committed nothing and collected nothing.
pub proof fn opened_vault_is_solvent(
    plain: Plaintexts,
    authority: Key,
    token_mint: Key,
    vault_token_account: Key,
    bump: u8,
)
    ensures
        plain.total(FeeVault::opened(authority, token_mint, vault_token_account, bump)) == 0,
        plain.pending(FeeVault::opened(authority, token_mint, vault_token_account, bump)) == 0,
        plain.solvent(FeeVault::opened(authority, token_mint, vault_token_account, bump)),
{
}

/// A committed transition keeps the pending sum at or below the total, where it held
/// before and the service answered as it is meant to.
pub proof fn transition_keeps_solvency(plain: Plaintexts, before: FeeVault, step: Committed)
    requires
        plain.solvent(before),
        plain.honest(step.conversation(before)),
    ensures
        plain.solvent(step.after(before)),
{
    let asked = step.conversation(before);
    match step {
        Committed::Collect { .. } => {
            assert(plain.honors(asked[1]));
        },
        Committed::Distribute { .. } => {
            assert(plain.honors(asked[1]));
            assert(plain.honors(asked[2]));
            assert(plain.honors(asked[3]));
            assert(plain.honors(asked[4]));
        },
        Committed::Settle => {},
    }
}

/// From the opening of a vault on, after every committed transition, the amount committed
/// to distribution is at most the amount collected, as long as the service answers as it
/// is meant to.
pub proof fn solvency_is_invariant(
    plain: Plaintexts,
    authority: Key,
    token_mint: Key,
    vault_token_account: Key,
    bump: u8,
    history: Seq<Committed>,
)
    requires
        honest_history(
            plain,
            FeeVault::opened(authority, token_mint, vault_token_account, bump),
            history,
        ),
    ensures
        forall|n: int|
            0 <= n <= history.len() ==> plain.solvent(
                #[trigger] replay(
                    FeeVault::opened(authority, token_mint, vault_token_account, bump),
                    history.take(n),
                ),
            ),
{
    let start = FeeVault::opened(authority, token_mint, vault_token_account, bump);
    assert forall|n: int| 0 <= n <= history.len() implies plain.solvent(
        #[trigger] replay(start, history.take(n)),
    ) by {
        solvency_after(plain, start, history, n);
    }
}

/// The induction behind `solvency_is_invariant`, from any vault that starts solvent.
pub proof fn solvency_after(plain: Plaintexts, start: FeeVault, history: Seq<Committed>, n: int)
    requires
        plain.solvent(start),
        honest_history(plain, start, history),
        0 <= n <= history.len(),
    ensures
        plain.solvent(replay(start, history.take(n))),
    decreases n,
{
    if n > 0 {
        solvency_after(plain, start, history, n - 1);
        let prefix = history.take(n);
        assert(prefix.drop_last() =~= history.take(n - 1));
        assert(prefix.last() == history[n - 1]);
        transition_keeps_solvency(plain, replay(start, history.take(n - 1)), history[n - 1]);
    }
}

/// A committed collection raises the total by the amount of the fee, and leaves the
/// pending sum alone.
pub proof fn collect_adds_the_fee(
    plain: Plaintexts,
    before: FeeVault,
    ciphertext: Seq<u8>,
    fee: u128,
    total: u128,
)
    requires
        plain.honest((Committed::Collect { ciphertext, fee, total }).conversation(before)),
    ensures
        plain.total((Committed::Collect { ciphertext, fee, total }).after(before)) == plain.total(
            before,
        ) + plain.decrypt_blob(ciphertext),
        plain.pending((Committed::Collect { ciphertext, fee, total }).after(before))
            == plain.pending(before),
{
    let asked = (Committed::Collect { ciphertext, fee, total }).conversation(before);
    assert(plain.honors(asked[0]));
    assert(plain.honors(asked[1]));
}

/// A committed distribution raises the pending sum by the lesser of the requested amount
/// and the amount that was left to distribute, and leaves the total alone.
pub proof fn distribute_grants_the_lesser(
    plain: Plaintexts,
    before: FeeVault,
    ciphertext: Seq<u8>,
    requested: u128,
    remaining: u128,
    sufficient: u128,
    actual: u128,
    pending: u128,
)
    requires
        plain.solvent(before),
        plain.honest(
            (Committed::Distribute {
                ciphertext,
                requested,
                remaining,
                sufficient,
                actual,
                pending,
            }).conversation(before),
        ),
    ensures
        ({
            let after = (Committed::Distribute {
                ciphertext,
                requested,
                remaining,
                sufficient,
                actual,
                pending,
            }).after(before);
            &&& plain.decrypt(remaining) == plain.remaining(before)
            &&& plain.pending(after) - plain.pending(before) == lesser(
                plain.decrypt_blob(ciphertext) as int,
                plain.remaining(before),
            )
            &&& plain.total(after) == plain.total(before)
            &&& plain.solvent(after)
        }),
{
    let step = Committed::Distribute { ciphertext, requested, remaining, sufficient, actual, pending };
    let asked = step.conversation(before);
    assert(plain.honors(asked[0]));
    assert(plain.honors(asked[1]));
    assert(plain.honors(asked[2]));
    assert(plain.honors(asked[3]));
    assert(plain.honors(asked[4]));
}

/// Between opening and settlement neither the total nor the pending sum ever shrinks: a
/// collection and a distribution leave both at least as large as they were.
pub proof fn amounts_never_shrink(plain: Plaintexts, before: FeeVault, step: Committed)
    requires
        !(step is Settle),
        plain.solvent(before),
        plain.honest(step.conversation(before)),
    ensures
        plain.total(step.after(before)) >= plain.total(before),
        plain.pending(step.after(before)) >= plain.pending(before),
{
    match step {
        Committed::Collect { ciphertext, fee, total } => {
            collect_adds_the_fee(plain, before, ciphertext, fee, total);
        },
        Committed::Distribute { ciphertext, requested, remaining, sufficient, actual, pending } => {
            distribute_grants_the_lesser(
                plain,
                before,
                ciphertext,
                requested,
                remaining,
                sufficient,
                actual,
                pending,
            );
        },
        Committed::Settle => {},
    }
}

/// After settlement the total and the pending sum are zero and the vault is closed.
pub proof fn settlement_zeroes_and_closes(plain: Plaintexts, before: FeeVault)
    ensures
        plain.total(Committed::Settle.after(before)) == 0,
        plain.pending(Committed::Settle.after(before)) == 0,
        Committed::Settle.after(before).is_closed,
{
}

/// Once a vault is settled, every collection, distribution and settlement on it is refused
/// with `VaultClosed`, whoever signs and whatever accounts are named.
pub proof fn settled_vault_refuses(
    before: FeeVault,
    collect: CollectFee,
    distribute: Distribute,
    settle: SettleEpoch,
)
    requires
        collect.fee_vault == Committed::Settle.after(before),
        distribute.fee_vault == Committed::Settle.after(before),
        settle.fee_vault == Committed::Settle.after(before),
    ensures
        collect.rejection() == Some(VaultError::VaultClosed),
        distribute.rejection() == Some(VaultError::VaultClosed),
        settle.rejection() == Some(VaultError::VaultClosed),
        settle.after_call() == settle,
{
}

/// An initialisation that went through is not repeated: the second call is refused with
/// `AlreadyInitialized`, and so is any other initialisation for the same mint, and the
/// record stays as the first call wrote it.
pub proof fn second_initialize_is_refused(first: Initialize, second: Initialize)
    requires
        first.rejection() is None,
        second.fee_vault == first.after_call().fee_vault,
    ensures
        first.after_call().rejection() == Some(VaultError::AlreadyInitialized),
        first.after_call().after_call() == first.after_call(),
        second.rejection() == Some(VaultError::AlreadyInitialized),
        second.after_call() == second,
{
}

/// A settlement that went through is not repeated: the second call is refused with
/// `VaultClosed`, and the record stays zeroed and closed.
pub proof fn second_settlement_is_refused(first: SettleEpoch)
    requires
        first.rejection() is None,
    ensures
        first.after_call().rejection() == Some(VaultError::VaultClosed),
        first.after_call().after_call() == first.after_call(),
{
}

} // verus!
