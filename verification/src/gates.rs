//! The two gates that every fetch of a client passes: the deadline before
//! which the API takes no request, and whether the credential is still good.

use crate::time::Instant;
use vstd::prelude::*;

verus! {

/// The point in time before which no request is to be sent, where the API
/// has said that its quota is used up. One deadline holds for all releases.
#[derive(Debug)]
pub struct RateLimitGate {
    deadline: Option<Instant>,
}

/// Whether a gate with the deadline `deadline` is closed at `now`: there is a
/// deadline, and `now` is not yet past it.
pub open spec fn is_limited_at(deadline: Option<Instant>, now: Instant) -> bool {
    deadline matches Some(until) && now.nanos <= until.nanos
}

impl View for RateLimitGate {
    type V = Option<Instant>;

    closed spec fn view(&self) -> Option<Instant> {
        self.deadline
    }
}

impl RateLimitGate {
    /// A gate without a deadline.
    pub fn new() -> (gate: Self)
        ensures
            gate@ is None,
    {
        RateLimitGate { deadline: None }
    }

    /// The deadline, if there is one.
    pub fn peek(&self) -> (deadline: Option<Instant>)
        ensures
            deadline == self@,
    {
        self.deadline
    }

    /// Asks at `now` whether a request may be sent. Where it may not, the
    /// deadline is returned and stays; where it may, nothing is returned, and
    /// a deadline that has passed is taken away.
    pub fn observe(&mut self, now: Instant) -> (limited_until: Option<Instant>)
        ensures
            is_limited_at(old(self)@, now) ==> limited_until == old(self)@ && final(self)@ == old(
                self,
            )@,
            !is_limited_at(old(self)@, now) ==> limited_until is None && final(self)@ is None,
    {
        match self.deadline {
            Some(until) => {
                if now.is_after(until) {
                    self.deadline = None;
                    None
                } else {
                    Some(until)
                }
            },
            None => None,
        }
    }

    /// Sets the deadline, in place of any that was there.
    pub fn record(&mut self, deadline: Instant)
        ensures
            final(self)@ == Some(deadline),
    {
        self.deadline = Some(deadline);
    }
}

/// Whether the credential of a client is still to be sent. Once the API has
/// refused it, it is never sent again.
#[derive(Debug)]
pub struct AuthGate {
    valid: bool,
}

impl View for AuthGate {
    type V = bool;

    closed spec fn view(&self) -> bool {
        self.valid
    }
}

impl AuthGate {
    /// What holds of a new client that has a credential, or has none.
    pub fn new(has_credential: bool) -> (gate: Self)
        ensures
            gate@ == has_credential,
    {
        AuthGate { valid: has_credential }
    }

    /// Whether the credential is still to be sent.
    pub fn is_valid(&self) -> (valid: bool)
        ensures
            valid == self@,
    {
        self.valid
    }

    /// Records that the API has refused the credential.
    pub fn invalidate(&mut self)
        ensures
            !final(self)@,
    {
        self.valid = false;
    }
}

} // verus!
