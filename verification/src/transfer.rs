use crate::key::Key;
use anchor_lang::error::Error;
use vstd::prelude::*;

verus! {

/// A movement of encrypted tokens that the vault asks the token service for.
///
/// The ciphertext is the very blob that the vault registers with the arithmetic service in
/// the same transition, so that what moves and what is accounted for are one quantity.
#[derive(Clone, Debug, PartialEq, Eq)]
pub struct TransferRequest {
    /// The token account that is debited.
    pub source: Key,
    /// The token account that is credited.
    pub destination: Key,
    /// The confidential token that moves.
    pub mint: Key,
    /// The signer under whose authority the tokens move.
    pub authority: Key,
    /// The encrypted amount.
    pub ciphertext: Vec<u8>,
    /// The input type under which the token service reads the ciphertext.
    pub input_type: u8,
    /// The number of decimals that the caller declares for the token.
    pub decimals: u8,
}

/// What a `TransferRequest` says, with the ciphertext as a sequence of bytes.
pub struct TransferOrder {
    /// The token account that is debited.
    pub source: Key,
    /// The token account that is credited.
    pub destination: Key,
    /// The confidential token that moves.
    pub mint: Key,
    /// The signer under whose authority the tokens move.
    pub authority: Key,
    /// The encrypted amount.
    pub ciphertext: Seq<u8>,
    /// The input type under which the token service reads the ciphertext.
    pub input_type: u8,
    /// The number of decimals that the caller declares for the token.
    pub decimals: u8,
}

impl View for TransferRequest {
    type V = TransferOrder;

    open spec fn view(&self) -> TransferOrder {
        TransferOrder {
            source: self.source,
            destination: self.destination,
            mint: self.mint,
            authority: self.authority,
            ciphertext: self.ciphertext@,
            input_type: self.input_type,
            decimals: self.decimals,
        }
    }
}

/// The token service, as the vault sees it: something that is handed a request and reports
/// whether the tokens moved.
///
/// `accepts(transfer, order)` says that `transfer` may be handed any request that says
/// `order`.
pub open spec fn accepts<F: FnOnce(TransferRequest) -> Result<(), Error>>(
    transfer: F,
    order: TransferOrder,
) -> bool {
    forall|request: TransferRequest|
        request@ == order ==> #[trigger] call_requires(transfer, (request,))
}

/// `reported(transfer, order, report)` says that `transfer` was handed a request that says
/// `order` and that `report` is what it returned.
pub open spec fn reported<F: FnOnce(TransferRequest) -> Result<(), Error>>(
    transfer: F,
    order: TransferOrder,
    report: Result<(), Error>,
) -> bool {
    exists|request: TransferRequest|
        request@ == order && #[trigger] call_ensures(transfer, (request,), report)
}

/// `moved(transfer, order)` says that `transfer` was handed a request that says `order` and
/// reported that the tokens moved.
pub open spec fn moved<F: FnOnce(TransferRequest) -> Result<(), Error>>(
    transfer: F,
    order: TransferOrder,
) -> bool {
    exists|report: Result<(), Error>| report is Ok && #[trigger] reported(transfer, order, report)
}

/// A copy of a ciphertext, byte for byte.
pub fn copy_ciphertext(ciphertext: &Vec<u8>) -> (copy: Vec<u8>)
    ensures
        copy@ == ciphertext@,
{
    let copy = ciphertext.clone();
    assert(copy@ =~= ciphertext@);
    copy
}

} // verus!
