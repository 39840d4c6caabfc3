use anchor_lang::error::Error;
use anchor_lang::prelude::AccountInfo;
use anchor_lang::prelude::CpiContext;
use inco_lightning::cpi::accounts::Operation;
use inco_lightning::cpi::e_add;
use inco_lightning::cpi::e_ge;
use inco_lightning::cpi::e_select;
use inco_lightning::cpi::e_sub;
use inco_lightning::cpi::new_euint128;
use inco_lightning::types::Ebool;
use inco_lightning::types::Euint128;
use vstd::prelude::*;

verus! {

/// `AccountInfo`, an account as the ledger runtime hands it to a program. The vault never
/// looks inside: it only passes the arithmetic program and the signer on to the service.
#[verifier::external_type_specification]
#[verifier::external_body]
pub struct ExLedgerAccount<'info>(AccountInfo<'info>);

/// One request that the arithmetic service has answered: what it was handed, and the handle
/// it answered.
pub enum Query {
    /// A ciphertext was registered under `input_type` and `handle` names it.
    Materialize { ciphertext: Seq<u8>, input_type: u8, handle: u128 },
    /// `handle` names the sum of what `lhs` and `rhs` name.
    Add { lhs: u128, rhs: u128, scalar_byte: u8, handle: u128 },
    /// `handle` names what `lhs` names less what `rhs` names.
    Sub { lhs: u128, rhs: u128, scalar_byte: u8, handle: u128 },
    /// `handle` names the encrypted truth of "what `lhs` names is at least what `rhs` names".
    Ge { lhs: u128, rhs: u128, scalar_byte: u8, handle: u128 },
    /// `handle` names what `if_true` names where `condition` names true, and what
    /// `if_false` names otherwise.
    Select { condition: u128, if_true: u128, if_false: u128, scalar_byte: u8, handle: u128 },
}

/// A session with the arithmetic service on behalf of one signer.
///
/// Beside the two accounts the session keeps, as ghost state, the list of the requests that
/// the service has answered through it and the failure with which it last refused one. Only
/// the five calls below write that state, and each writes what it was handed and what came
/// back. The contracts of the vault's transitions say which requests they add, so a
/// property of the service (that a sum handle denotes the sum, say) can be carried over to
/// the vault.
pub struct Arithmetic<'info> {
    program: AccountInfo<'info>,
    signer: AccountInfo<'info>,
    asked: Ghost<Seq<Query>>,
    failure: Ghost<Option<Error>>,
}

impl<'info> Arithmetic<'info> {
    /// The account of the arithmetic program.
    pub closed spec fn program(&self) -> AccountInfo<'info> {
        self.program
    }

    /// The account that authorises every request of the session.
    pub closed spec fn signer(&self) -> AccountInfo<'info> {
        self.signer
    }

    /// The requests that the service has answered through this session, oldest first.
    pub closed spec fn asked(&self) -> Seq<Query> {
        self.asked@
    }

    /// The failure with which the service refused a request of this session, if it has
    /// refused one: that of the latest refusal.
    pub closed spec fn last_failure(&self) -> Option<Error> {
        self.failure@
    }

    /// Whether the session is still with the same program and the same signer as `earlier`.
    pub open spec fn same_parties(&self, earlier: &Self) -> bool {
        self.program() == earlier.program() && self.signer() == earlier.signer()
    }

    /// Opens a session with the arithmetic program, in which `signer` authorises every
    /// request. Nothing has been asked yet.
    pub fn new(program: AccountInfo<'info>, signer: AccountInfo<'info>) -> (session: Self)
        ensures
            session.program() == program,
            session.signer() == signer,
            session.asked() == Seq::<Query>::empty(),
            session.last_failure() is None,
    {
        Arithmetic { program, signer, asked: Ghost(Seq::empty()), failure: Ghost(None) }
    }

    /// Calls `inco_lightning::cpi::new_euint128` with the session's program and signer, and
    /// takes the handle out of its wrapping.
    ///
    /// The contract claims nothing of the handle or of the failure: they are whatever came
    /// back from the service through the ledger runtime. It says how the session's account
    /// of itself goes on: an answer is entered in the list with what the service was handed,
    /// a failure is remembered, and the parties stay.
    #[verifier::external_body]
    pub(crate) fn call_new_euint128(&mut self, ciphertext: Vec<u8>, input_type: u8) -> (answer:
        Result<u128, Error>)
        ensures
            final(self).same_parties(old(self)),
            match answer {
                Ok(handle) => final(self).asked() == old(self).asked().push(
                    Query::Materialize { ciphertext: ciphertext@, input_type, handle },
                ) && final(self).last_failure() == old(self).last_failure(),
                Err(failure) => {
                    &&& final(self).asked() == old(self).asked()
                    &&& final(self).last_failure() == Some(failure)
                },
            },
    {
        let ctx = CpiContext::new(self.program.clone(), Operation { signer: self.signer.clone() });
        match new_euint128(ctx, ciphertext, input_type) {
            Ok(handle) => Ok(handle.0),
            Err(failure) => Err(failure),
        }
    }

    /// Calls `inco_lightning::cpi::e_add` with the session's program and signer, and takes
    /// the handle out of its wrapping. Of what came back nothing is claimed; the contract
    /// says how the session's account of itself goes on, as for `call_new_euint128`.
    #[verifier::external_body]
    pub(crate) fn call_e_add(&mut self, lhs: u128, rhs: u128, scalar_byte: u8) -> (answer: Result<
        u128,
        Error,
    >)
        ensures
            final(self).same_parties(old(self)),
            match answer {
                Ok(handle) => final(self).asked() == old(self).asked().push(
                    Query::Add { lhs, rhs, scalar_byte, handle },
                ) && final(self).last_failure() == old(self).last_failure(),
                Err(failure) => {
                    &&& final(self).asked() == old(self).asked()
                    &&& final(self).last_failure() == Some(failure)
                },
            },
    {
        let ctx = CpiContext::new(self.program.clone(), Operation { signer: self.signer.clone() });
        match e_add(ctx, Euint128(lhs), Euint128(rhs), scalar_byte) {
            Ok(handle) => Ok(handle.0),
            Err(failure) => Err(failure),
        }
    }

    /// Calls `inco_lightning::cpi::e_sub` with the session's program and signer, and takes
    /// the handle out of its wrapping. Of what came back nothing is claimed; the contract
    /// says how the session's account of itself goes on, as for `call_new_euint128`.
    #[verifier::external_body]
    pub(crate) fn call_e_sub(&mut self, lhs: u128, rhs: u128, scalar_byte: u8) -> (answer: Result<
        u128,
        Error,
    >)
        ensures
            final(self).same_parties(old(self)),
            match answer {
                Ok(handle) => final(self).asked() == old(self).asked().push(
                    Query::Sub { lhs, rhs, scalar_byte, handle },
                ) && final(self).last_failure() == old(self).last_failure(),
                Err(failure) => {
                    &&& final(self).asked() == old(self).asked()
                    &&& final(self).last_failure() == Some(failure)
                },
            },
    {
        let ctx = CpiContext::new(self.program.clone(), Operation { signer: self.signer.clone() });
        match e_sub(ctx, Euint128(lhs), Euint128(rhs), scalar_byte) {
            Ok(handle) => Ok(handle.0),
            Err(failure) => Err(failure),
        }
    }

    /// Calls `inco_lightning::cpi::e_ge` with the session's program and signer, and takes the
    /// handle out of its wrapping. Of what came back nothing is claimed; the contract says
    /// how the session's account of itself goes on, as for `call_new_euint128`.
    #[verifier::external_body]
    pub(crate) fn call_e_ge(&mut self, lhs: u128, rhs: u128, scalar_byte: u8) -> (answer: Result<
        u128,
        Error,
    >)
        ensures
            final(self).same_parties(old(self)),
            match answer {
                Ok(handle) => final(self).asked() == old(self).asked().push(
                    Query::Ge { lhs, rhs, scalar_byte, handle },
                ) && final(self).last_failure() == old(self).last_failure(),
                Err(failure) => {
                    &&& final(self).asked() == old(self).asked()
                    &&& final(self).last_failure() == Some(failure)
                },
            },
    {
        let ctx = CpiContext::new(self.program.clone(), Operation { signer: self.signer.clone() });
        match e_ge(ctx, Euint128(lhs), Euint128(rhs), scalar_byte) {
            Ok(handle) => Ok(handle.0),
            Err(failure) => Err(failure),
        }
    }

    /// Calls `inco_lightning::cpi::e_select` with the session's program and signer, and takes
    /// the handle out of its wrapping. Of what came back nothing is claimed; the contract
    /// says how the session's account of itself goes on, as for `call_new_euint128`.
    #[verifier::external_body]
    pub(crate) fn call_e_select(
        &mut self,
        condition: u128,
        if_true: u128,
        if_false: u128,
        scalar_byte: u8,
    ) -> (answer: Result<u128, Error>)
        ensures
            final(self).same_parties(old(self)),
            match answer {
                Ok(handle) => final(self).asked() == old(self).asked().push(
                    Query::Select { condition, if_true, if_false, scalar_byte, handle },
                ) && final(self).last_failure() == old(self).last_failure(),
                Err(failure) => {
                    &&& final(self).asked() == old(self).asked()
                    &&& final(self).last_failure() == Some(failure)
                },
            },
    {
        let ctx = CpiContext::new(self.program.clone(), Operation { signer: self.signer.clone() });
        match e_select(ctx, Ebool(condition), Euint128(if_true), Euint128(if_false), scalar_byte) {
            Ok(handle) => Ok(handle.0),
            Err(failure) => Err(failure),
        }
    }
}

} // verus!
