//! The decisions the widget shell takes between its outside calls: what to
//! answer when asked for the usage status, how to keep the autostart entry
//! in line with the settings, what a tray menu entry means, and how often to
//! poll.
use crate::auth::Session;
use crate::cache::UsageCache;
use crate::usage::{UsageSnapshot, UsageSnapshotView};
use vstd::prelude::*;

verus! {

/// What the widget displays: a flat model on purpose, so that the frontend
/// is not coupled to the internal types one to one.
#[derive(Debug)]
pub enum UsageStatus {
    NotLoggedIn,
    SessionExpired,
    /// Fresh usage figures.
    Current { snapshot: UsageSnapshot, subscription_type: Option<String> },
    Error { message: String, stale_snapshot: Option<UsageSnapshot> },
}

/// What reading the credentials file gave.
#[derive(Debug)]
pub enum CredentialsRead {
    /// There is no credentials file: the command-line client is not logged in.
    Missing,
    /// The file exists but could not be read or understood; the message says why.
    Failed(String),
    Loaded(Session),
}

/// The next step in answering a usage-status request.
#[derive(Debug)]
pub enum StatusStep {
    /// Answer with this status right away.
    Answer(UsageStatus),
    /// Fail the request with this message.
    Fail(String),
    /// Poll the API with this access token, then continue with
    /// [`step_after_poll`].
    Poll { access_token: String, subscription_type: Option<String> },
}

/// The step after reading the credentials, at the instant `now_ms`.
pub open spec fn credentials_step(read: CredentialsRead, now_ms: i64) -> StatusStep {
    match read {
        CredentialsRead::Missing => StatusStep::Answer(UsageStatus::NotLoggedIn),
        CredentialsRead::Failed(message) => StatusStep::Fail(message),
        CredentialsRead::Loaded(session) => if session.expired_at(now_ms) {
            StatusStep::Answer(UsageStatus::SessionExpired)
        } else {
            StatusStep::Poll {
                access_token: session.access_token,
                subscription_type: session.subscription_type,
            }
        },
    }
}

/// The step after reading the credentials, taking `now_ms` as the current
/// instant.
pub fn step_after_credentials_at(read: CredentialsRead, now_ms: i64) -> (r: StatusStep)
    ensures
        r == credentials_step(read, now_ms),
{
    match read {
        CredentialsRead::Missing => StatusStep::Answer(UsageStatus::NotLoggedIn),
        CredentialsRead::Failed(message) => StatusStep::Fail(message),
        CredentialsRead::Loaded(session) => {
            if session.is_expired_at(now_ms) {
                StatusStep::Answer(UsageStatus::SessionExpired)
            } else {
                StatusStep::Poll {
                    access_token: session.access_token,
                    subscription_type: session.subscription_type,
                }
            }
        },
    }
}

/// The step after reading the credentials, at the current instant by the
/// system clock (in milliseconds since the Unix epoch).
pub fn step_after_credentials(read: CredentialsRead) -> (r: StatusStep)
    ensures
        exists|reading: Option<(u64, u32)>|
            crate::clock::is_clock_reading(reading) && r == credentials_step(
                read,
                #[trigger] crate::clock::reading_millis(reading),
            ),
{
    let now_ms = crate::clock::unix_time_millis();
    step_after_credentials_at(read, now_ms)
}

/// The outcome of the login flow of the command-line client, from whether
/// the process finished successfully.
pub fn login_result(succeeded: bool) -> (r: Result<(), String>)
    ensures
        r is Ok <==> succeeded,
        r matches Err(message) ==> message@ == "Login wurde nicht erfolgreich abgeschlossen."@,
{
    if succeeded {
        Ok(())
    } else {
        Err(String::from_str("Login wurde nicht erfolgreich abgeschlossen."))
    }
}

/// The next step once the poll has answered.
#[derive(Debug)]
pub enum PollStep {
    /// Store this cache (a failure to store it changes nothing), then
    /// answer with this status.
    StoreAndAnswer { cache: UsageCache, status: UsageStatus },
    /// Read the stored cache, then answer with [`status_from_stale`].
    ReadCache { message: String },
}

pub open spec fn cached_snapshot(cache: UsageCache) -> Option<UsageSnapshotView> {
    match cache.last_snapshot {
        Some(s) => Some(s@),
        None => None,
    }
}

/// The step after the poll: a fresh snapshot is both stored and shown; a
/// failed poll falls back to whatever snapshot was stored last.
pub fn step_after_poll(poll: Result<UsageSnapshot, String>, subscription_type: Option<String>) -> (r: PollStep)
    ensures
        poll matches Ok(snapshot) ==> r matches PollStep::StoreAndAnswer { cache, status } && cached_snapshot(
            cache,
        ) == Some(snapshot@) && status == (UsageStatus::Current { snapshot, subscription_type }),
        poll matches Err(message) ==> r == (PollStep::ReadCache { message }),
{
    match poll {
        Ok(snapshot) => {
            let cache = UsageCache { last_snapshot: Some(snapshot.clone()) };
            PollStep::StoreAndAnswer { cache, status: UsageStatus::Current { snapshot, subscription_type } }
        },
        Err(message) => PollStep::ReadCache { message },
    }
}

/// The answer after a failed poll: the error message together with the
/// last stored snapshot, if the cache could be read and held one.
pub fn status_from_stale(message: String, cache: Option<UsageCache>) -> (r: UsageStatus)
    ensures
        r == (UsageStatus::Error {
            message,
            stale_snapshot: match cache {
                Some(c) => c.last_snapshot,
                None => None,
            },
        }),
{
    let stale_snapshot = match cache {
        Some(c) => c.last_snapshot,
        None => None,
    };
    UsageStatus::Error { message, stale_snapshot }
}

// ---------------------------------------------------------------------------
// Autostart
// ---------------------------------------------------------------------------

/// What to do to the system's autostart entry.
#[derive(Debug, Clone, Copy, PartialEq, Eq)]
pub enum AutostartChange {
    Enable,
    Disable,
    Keep,
}

/// Whether autostart is on after applying `change` to a state in which it
/// was `enabled`.
pub open spec fn autostart_after(enabled: bool, change: AutostartChange) -> bool {
    match change {
        AutostartChange::Enable => true,
        AutostartChange::Disable => false,
        AutostartChange::Keep => enabled,
    }
}

/// The change that brings the autostart entry from `enabled` to what the
/// settings `wanted`, touching it only when the two differ.
pub open spec fn change_for(wanted: bool, enabled: bool) -> AutostartChange {
    if wanted && !enabled {
        AutostartChange::Enable
    } else if !wanted && enabled {
        AutostartChange::Disable
    } else {
        AutostartChange::Keep
    }
}

pub fn autostart_change(wanted: bool, enabled: bool) -> (r: AutostartChange)
    ensures
        r == change_for(wanted, enabled),
{
    if wanted && !enabled {
        AutostartChange::Enable
    } else if !wanted && enabled {
        AutostartChange::Disable
    } else {
        AutostartChange::Keep
    }
}

// ---------------------------------------------------------------------------
// Tray menu
// ---------------------------------------------------------------------------

/// What a tray menu entry asks for.
#[derive(Debug, Clone, Copy, PartialEq, Eq)]
pub enum TrayCommand {
    /// Poll now.
    Refresh,
    /// Show and focus the settings window.
    ShowSettings,
    Quit,
    /// Not an entry of this menu.
    Ignore,
}

fn same_text(a: &str, b: &str) -> (r: bool)
    ensures
        r == (a@ == b@),
{
    let n = a.unicode_len();
    if n != b.unicode_len() {
        return false;
    }
    let mut i: usize = 0;
    while i < n
        invariant
            n == a@.len(),
            n == b@.len(),
            0 <= i <= n,
            forall|j: int| 0 <= j < i ==> a@[j] == b@[j],
        decreases n - i,
    {
        if a.get_char(i) != b.get_char(i) {
            return false;
        }
        i = i + 1;
    }
    assert(a@ =~= b@);
    true
}

/// The command of the tray menu entry with this id.
pub fn tray_command(id: &str) -> (r: TrayCommand)
    ensures
        r == (if id@ == "refresh"@ {
            TrayCommand::Refresh
        } else if id@ == "settings"@ {
            TrayCommand::ShowSettings
        } else if id@ == "quit"@ {
            TrayCommand::Quit
        } else {
            TrayCommand::Ignore
        }),
{
    if same_text(id, "refresh") {
        TrayCommand::Refresh
    } else if same_text(id, "settings") {
        TrayCommand::ShowSettings
    } else if same_text(id, "quit") {
        TrayCommand::Quit
    } else {
        TrayCommand::Ignore
    }
}

// ---------------------------------------------------------------------------
// Background polling
// ---------------------------------------------------------------------------

/// The shortest interval between two background polls, in seconds.
pub const MIN_POLL_INTERVAL_SECS: u64 = 60;

/// Seconds to wait before the next background poll: the configured interval
/// (re-read on every tick, so that a change takes effect without a
/// restart), five minutes when no settings could be read, and never less
/// than a minute.
pub open spec fn interval_for(configured: Option<u64>) -> u64 {
    let interval = match configured {
        Some(s) => s,
        None => crate::cache::DEFAULT_POLL_INTERVAL_SECS,
    };
    if interval < MIN_POLL_INTERVAL_SECS {
        MIN_POLL_INTERVAL_SECS
    } else {
        interval
    }
}

pub fn poll_interval_secs(configured: Option<u64>) -> (r: u64)
    ensures
        r == interval_for(configured),
{
    let interval = match configured {
        Some(s) => s,
        None => crate::cache::DEFAULT_POLL_INTERVAL_SECS,
    };
    if interval < MIN_POLL_INTERVAL_SECS {
        MIN_POLL_INTERVAL_SECS
    } else {
        interval
    }
}

// ---------------------------------------------------------------------------
// Laws
// ---------------------------------------------------------------------------

/// Whatever state the autostart entry is in, applying the chosen change
/// leaves it as the settings want it, and the entry is touched only when it
/// differs from what they want.
pub proof fn lemma_autostart_follows_settings(wanted: bool, enabled: bool)
    ensures
        autostart_after(enabled, change_for(wanted, enabled)) == wanted,
        (change_for(wanted, enabled) == AutostartChange::Keep) <==> (wanted == enabled),
{
}

/// Background polls are never closer together than a minute, and a
/// configured interval of a minute or more is used as it is.
pub proof fn lemma_poll_interval_bounds(configured: Option<u64>)
    ensures
        interval_for(configured) >= MIN_POLL_INTERVAL_SECS,
        forall|s: u64| configured == Some(s) && s >= MIN_POLL_INTERVAL_SECS ==> interval_for(configured) == s,
{
}

/// An expired session is never polled: once the session's expiry instant
/// is reached the answer is `SessionExpired`, before it a poll with the
/// session's own token.
pub proof fn lemma_expired_session_is_not_polled(session: Session, now_ms: i64)
    ensures
        now_ms >= session.expires_at_ms ==> credentials_step(CredentialsRead::Loaded(session), now_ms)
            == StatusStep::Answer(UsageStatus::SessionExpired),
        now_ms < session.expires_at_ms ==> credentials_step(CredentialsRead::Loaded(session), now_ms)
            == (StatusStep::Poll {
            access_token: session.access_token,
            subscription_type: session.subscription_type,
        }),
{
}

/// Without a credentials file the answer is `NotLoggedIn`, at any instant.
pub proof fn lemma_missing_credentials_mean_not_logged_in(now_ms: i64)
    ensures
        credentials_step(CredentialsRead::Missing, now_ms) == StatusStep::Answer(UsageStatus::NotLoggedIn),
{
}

} // verus!
