//! A verification-code stub: the state of one code-based verification.

use vstd::prelude::*;

use crate::entities::TriState;

verus! {

#[derive(Debug, PartialEq)]
pub struct StubsPeriodVerificationPeriodCode {
    pub status: Status,
    pub strategy: Strategy,
    /// The wire format may leave the attempt count out or set it to null.
    pub attempts: TriState<i64>,
    pub expire_at: i64,
}

impl StubsPeriodVerificationPeriodCode {
    pub fn new(status: Status, strategy: Strategy, expire_at: i64) -> (r:
        StubsPeriodVerificationPeriodCode)
        ensures
            r.status == status,
            r.strategy == strategy,
            r.attempts == TriState::<i64>::Unset,
            r.expire_at == expire_at,
    {
        StubsPeriodVerificationPeriodCode { status, strategy, attempts: TriState::Unset, expire_at }
    }
}

impl Clone for StubsPeriodVerificationPeriodCode {
    fn clone(&self) -> (r: Self)
        ensures
            r == *self,
    {
        StubsPeriodVerificationPeriodCode {
            status: self.status,
            strategy: self.strategy,
            attempts: self.attempts.clone(),
            expire_at: self.expire_at,
        }
    }
}

#[derive(Clone, Copy, Debug, Eq, PartialEq, Ord, PartialOrd, Hash)]
pub enum Status {
    Unverified,
    Verified,
    Failed,
    Expired,
}

impl Default for Status {
    fn default() -> (r: Status)
        ensures
            r == Status::Unverified,
    {
        Status::Unverified
    }
}

#[derive(Clone, Copy, Debug, Eq, PartialEq, Ord, PartialOrd, Hash)]
pub enum Strategy {
    EmailCode,
}

impl Default for Strategy {
    fn default() -> (r: Strategy)
        ensures
            r == Strategy::EmailCode,
    {
        Strategy::EmailCode
    }
}

} // verus!
