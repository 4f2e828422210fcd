//! The login session, as the official Anthropic command-line client keeps it
//! in its local credentials file. This library never writes that file and
//! performs no OAuth flow of its own; it only uses what the client stored there.
use vstd::prelude::*;

verus! {

/// An active login session of the user's Anthropic account.
#[derive(Debug, Clone)]
pub struct Session {
    pub access_token: String,
    pub expires_at_ms: i64,
    pub subscription_type: Option<String>,
    pub rate_limit_tier: Option<String>,
}

impl Session {
    /// The session counts as expired from its expiry instant on.
    pub open spec fn expired_at(self, now_ms: i64) -> bool {
        now_ms >= self.expires_at_ms
    }

    /// Whether the session has expired at the instant `now_ms`.
    pub fn is_expired_at(&self, now_ms: i64) -> (r: bool)
        ensures
            r == self.expired_at(now_ms),
    {
        now_ms >= self.expires_at_ms
    }

    /// Whether the session has expired at the instant of a clock reading
    /// (whole seconds and nanoseconds since the Unix epoch, or `None`
    /// before the epoch), taken in whole milliseconds.
    pub fn expired_at_reading(&self, reading: Option<(u64, u32)>) -> (r: bool)
        ensures
            r == self.expired_at(crate::clock::reading_millis(reading)),
    {
        self.is_expired_at(crate::clock::millis_of(reading))
    }

    /// Whether the session has expired by the system clock.
    pub fn is_expired(&self) -> (r: bool)
        ensures
            exists|reading: Option<(u64, u32)>|
                crate::clock::is_clock_reading(reading) && r == self.expired_at(
                    #[trigger] crate::clock::reading_millis(reading),
                ),
    {
        self.expired_at_reading(crate::clock::since_unix_epoch())
    }
}

/// Expiry is permanent: a session expired at one instant is expired at
/// every later instant.
pub proof fn lemma_expiry_is_permanent(session: Session, earlier_ms: i64, later_ms: i64)
    requires
        earlier_ms <= later_ms,
        session.expired_at(earlier_ms),
    ensures
        session.expired_at(later_ms),
{
}

} // verus!
