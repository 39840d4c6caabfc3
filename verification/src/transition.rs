use crate::arithmetic::INPUT_TYPE;
use crate::arithmetic::SCALAR_BYTE;
use crate::session::Query;
use crate::vault::FeeVault;
use vstd::prelude::*;

verus! {

/// A transition that has committed, with the handles that the arithmetic service answered
/// while it ran.
pub enum Committed {
    /// A fee was collected: `fee` names the registered ciphertext, `total` the new total.
    Collect { ciphertext: Seq<u8>, fee: u128, total: u128 },
    /// A distribution was made: `requested` names the registered ciphertext, `remaining`
    /// what was left to distribute, `sufficient` the encrypted comparison of the two,
    /// `actual` the amount that was granted and `pending` the new pending sum.
    Distribute {
        ciphertext: Seq<u8>,
        requested: u128,
        remaining: u128,
        sufficient: u128,
        actual: u128,
        pending: u128,
    },
    /// The epoch was settled.
    Settle,
}

impl Committed {
    /// The requests that the transition puts to the arithmetic service, in order, each with
    /// what the service is handed and the handle it answers, when the transition starts
    /// from the record `before`.
    pub open spec fn conversation(self, before: FeeVault) -> Seq<Query> {
        match self {
            Committed::Collect { ciphertext, fee, total } => seq![
                Query::Materialize { ciphertext, input_type: INPUT_TYPE, handle: fee },
                Query::Add {
                    lhs: before.total_fees_handle,
                    rhs: fee,
                    scalar_byte: SCALAR_BYTE,
                    handle: total,
                },
            ],
            Committed::Distribute { ciphertext, requested, remaining, sufficient, actual, pending } => seq![
                Query::Materialize { ciphertext, input_type: INPUT_TYPE, handle: requested },
                Query::Sub {
                    lhs: before.total_fees_handle,
                    rhs: before.pending_distribution_handle,
                    scalar_byte: SCALAR_BYTE,
                    handle: remaining,
                },
                Query::Ge {
                    lhs: remaining,
                    rhs: requested,
                    scalar_byte: SCALAR_BYTE,
                    handle: sufficient,
                },
                Query::Select {
                    condition: sufficient,
                    if_true: requested,
                    if_false: remaining,
                    scalar_byte: SCALAR_BYTE,
                    handle: actual,
                },
                Query::Add {
                    lhs: before.pending_distribution_handle,
                    rhs: actual,
                    scalar_byte: SCALAR_BYTE,
                    handle: pending,
                },
            ],
            Committed::Settle => Seq::<Query>::empty(),
        }
    }

    /// Whether the transition is the collection of the fee that `ciphertext` encrypts.
    pub open spec fn collects(self, ciphertext: Seq<u8>) -> bool {
        self matches Committed::Collect { ciphertext: collected, .. } && collected == ciphertext
    }

    /// Whether the transition is a distribution for which `ciphertext` encrypts the
    /// requested amount.
    pub open spec fn distributes(self, ciphertext: Seq<u8>) -> bool {
        self matches Committed::Distribute { ciphertext: requested, .. } && requested
            == ciphertext
    }

    /// The record that the transition leaves when it starts from the record `before`.
    pub open spec fn after(self, before: FeeVault) -> FeeVault {
        match self {
            Committed::Collect { total, .. } => before.with_total(total),
            Committed::Distribute { pending, .. } => before.with_pending(pending),
            Committed::Settle => before.settled(),
        }
    }
}

/// Since the list of answered requests was `before`, the service has answered the first
/// `answered` requests of `conversation` and nothing else.
pub open spec fn asked_further(
    before: Seq<Query>,
    after: Seq<Query>,
    conversation: Seq<Query>,
    answered: int,
) -> bool {
    0 <= answered <= conversation.len() && after == before + conversation.take(answered)
}

} // verus!
