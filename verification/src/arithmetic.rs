use crate::error::VaultError;
use crate::session::Arithmetic;
use crate::session::Query;
use vstd::prelude::*;

verus! {

/// The input type under which the vault registers every ciphertext.
pub const INPUT_TYPE: u8 = 0;

/// The scalar byte that the vault sends with every operation.
pub const SCALAR_BYTE: u8 = 0;

/// What a session's account of itself says after a request that the service has answered
/// with `handle`: the request is the newest entry of the list, and nothing else has changed.
pub open spec fn answered(earlier: &Arithmetic<'_>, later: &Arithmetic<'_>, query: Query) -> bool {
    &&& later.asked() == earlier.asked().push(query)
    &&& later.last_failure() == earlier.last_failure()
}

/// What a session's account of itself says after a request that the service has refused:
/// the list is as it was, and `failure` carries what the service returned.
pub open spec fn refused(
    earlier: &Arithmetic<'_>,
    later: &Arithmetic<'_>,
    failure: VaultError,
) -> bool {
    &&& later.asked() == earlier.asked()
    &&& later.last_failure() matches Some(returned)
    &&& failure == VaultError::ArithmeticService(returned)
}

/// The session has not been used: it is with the same parties, and its list of answers
/// and its latest failure are as they were.
pub open spec fn untouched(earlier: &Arithmetic<'_>, later: &Arithmetic<'_>) -> bool {
    &&& later.same_parties(earlier)
    &&& later.asked() == earlier.asked()
    &&& later.last_failure() == earlier.last_failure()
}

impl<'info> Arithmetic<'info> {
    /// Registers a ciphertext with the service, under the vault's input type, and returns
    /// the handle that names it. A failure of the service is handed on as it came.
    pub fn materialize(&mut self, ciphertext: Vec<u8>) -> (answer: Result<u128, VaultError>)
        ensures
            final(self).same_parties(old(self)),
            match answer {
                Ok(handle) => answered(
                    old(self),
                    final(self),
                    Query::Materialize { ciphertext: ciphertext@, input_type: INPUT_TYPE, handle },
                ),
                Err(failure) => refused(old(self), final(self), failure),
            },
    {
        match self.call_new_euint128(ciphertext, INPUT_TYPE) {
            Ok(handle) => Ok(handle),
            Err(failure) => Err(VaultError::ArithmeticService(failure)),
        }
    }

    /// Asks for the handle of the sum of two encrypted amounts. A failure of the service is
    /// handed on as it came.
    pub fn add(&mut self, lhs: u128, rhs: u128) -> (answer: Result<u128, VaultError>)
        ensures
            final(self).same_parties(old(self)),
            match answer {
                Ok(handle) => answered(
                    old(self),
                    final(self),
                    Query::Add { lhs, rhs, scalar_byte: SCALAR_BYTE, handle },
                ),
                Err(failure) => refused(old(self), final(self), failure),
            },
    {
        match self.call_e_add(lhs, rhs, SCALAR_BYTE) {
            Ok(handle) => Ok(handle),
            Err(failure) => Err(VaultError::ArithmeticService(failure)),
        }
    }

    /// Asks for the handle of the difference of two encrypted amounts, `lhs` less `rhs`. A
    /// failure of the service is handed on as it came.
    pub fn sub(&mut self, lhs: u128, rhs: u128) -> (answer: Result<u128, VaultError>)
        ensures
            final(self).same_parties(old(self)),
            match answer {
                Ok(handle) => answered(
                    old(self),
                    final(self),
                    Query::Sub { lhs, rhs, scalar_byte: SCALAR_BYTE, handle },
                ),
                Err(failure) => refused(old(self), final(self), failure),
            },
    {
        match self.call_e_sub(lhs, rhs, SCALAR_BYTE) {
            Ok(handle) => Ok(handle),
            Err(failure) => Err(VaultError::ArithmeticService(failure)),
        }
    }

    /// Asks for the handle of the encrypted comparison "`lhs` is at least `rhs`". A failure
    /// of the service is handed on as it came.
    pub fn ge(&mut self, lhs: u128, rhs: u128) -> (answer: Result<u128, VaultError>)
        ensures
            final(self).same_parties(old(self)),
            match answer {
                Ok(handle) => answered(
                    old(self),
                    final(self),
                    Query::Ge { lhs, rhs, scalar_byte: SCALAR_BYTE, handle },
                ),
                Err(failure) => refused(old(self), final(self), failure),
            },
    {
        match self.call_e_ge(lhs, rhs, SCALAR_BYTE) {
            Ok(handle) => Ok(handle),
            Err(failure) => Err(VaultError::ArithmeticService(failure)),
        }
    }

    /// Asks for the handle of `if_true` or of `if_false`, chosen by the encrypted
    /// `condition`. Which of the two was chosen is not visible here. A failure of the
    /// service is handed on as it came.
    pub fn select(&mut self, condition: u128, if_true: u128, if_false: u128) -> (answer: Result<
        u128,
        VaultError,
    >)
        ensures
            final(self).same_parties(old(self)),
            match answer {
                Ok(handle) => answered(
                    old(self),
                    final(self),
                    Query::Select { condition, if_true, if_false, scalar_byte: SCALAR_BYTE, handle },
                ),
                Err(failure) => refused(old(self), final(self), failure),
            },
    {
        match self.call_e_select(condition, if_true, if_false, SCALAR_BYTE) {
            Ok(handle) => Ok(handle),
            Err(failure) => Err(VaultError::ArithmeticService(failure)),
        }
    }
}

} // verus!
