//! The wait for a contended directory lock: the pause between attempts,
//! which doubles up to a ceiling, and the words for contention, nesting and
//! giving up.
//!
//! Taking the lock and sleeping are the caller's; this decides how long each
//! pause is.

use vstd::prelude::*;
use crate::error::{Error, ErrorKind};
use crate::path::{relative_display, DisplayBase};
use crate::text::{decimal, format_decimal, owned, push_str};

verus! {

/// Seconds a writer waits for a contended directory lock before giving up.
pub const DIRECTORY_LOCK_ACQUIRE_TIMEOUT_SECS: u64 = 30;

/// Shortest pause, in milliseconds, between two attempts at a contended lock.
pub const DIRECTORY_LOCK_RETRY_MIN_INTERVAL_MS: u64 = 5;

/// Longest pause, in milliseconds, the retry backoff grows to.
pub const DIRECTORY_LOCK_RETRY_MAX_INTERVAL_MS: u64 = 200;

/// The pause before the attempt after `k` earlier pauses: the shortest
/// pause doubled `k` times, held at the longest.
pub open spec fn backoff_pause(k: nat) -> nat
    decreases k,
{
    if k == 0 {
        DIRECTORY_LOCK_RETRY_MIN_INTERVAL_MS as nat
    } else {
        let doubled = 2 * backoff_pause((k - 1) as nat);
        if doubled < DIRECTORY_LOCK_RETRY_MAX_INTERVAL_MS {
            doubled
        } else {
            DIRECTORY_LOCK_RETRY_MAX_INTERVAL_MS as nat
        }
    }
}

/// The pauses of one wait for a contended lock.
pub struct LockBackoff {
    interval_ms: u64,
    pauses: Ghost<nat>,
}

impl LockBackoff {
    /// How many pauses this wait has handed out.
    pub closed spec fn pauses_taken(self) -> nat {
        self.pauses@
    }

    /// The pause this wait hands out next.
    pub closed spec fn next_view(self) -> nat {
        self.interval_ms as nat
    }

    /// The pause handed out next is the one the backoff rule gives after
    /// the pauses taken so far.
    pub open spec fn wf(self) -> bool {
        self.next_view() == backoff_pause(self.pauses_taken())
    }

    /// A wait that has not paused yet.
    pub fn new() -> (b: LockBackoff)
        ensures
            b.wf(),
            b.pauses_taken() == 0,
    {
        LockBackoff { interval_ms: DIRECTORY_LOCK_RETRY_MIN_INTERVAL_MS, pauses: Ghost(0) }
    }

    /// The next pause, in milliseconds; the one after it is twice as long,
    /// held at the longest pause.
    pub fn next_pause(&mut self) -> (ms: u64)
        requires
            old(self).wf(),
        ensures
            final(self).wf(),
            final(self).pauses_taken() == old(self).pauses_taken() + 1,
            ms == backoff_pause(old(self).pauses_taken()),
    {
        proof {
            lemma_backoff_pause_bounded(self.pauses@);
        }
        let ms = self.interval_ms;
        let doubled = self.interval_ms * 2;
        self.interval_ms = if doubled < DIRECTORY_LOCK_RETRY_MAX_INTERVAL_MS {
            doubled
        } else {
            DIRECTORY_LOCK_RETRY_MAX_INTERVAL_MS
        };
        self.pauses = Ghost(self.pauses@ + 1);
        ms
    }
}

/// Every pause lies between the shortest and the longest.
pub proof fn lemma_backoff_pause_bounded(k: nat)
    ensures
        DIRECTORY_LOCK_RETRY_MIN_INTERVAL_MS <= backoff_pause(k) <= DIRECTORY_LOCK_RETRY_MAX_INTERVAL_MS,
    decreases k,
{
    if k > 0 {
        lemma_backoff_pause_bounded((k - 1) as nat);
    }
}

/// Pauses never shrink: each is at least as long as the one before.
pub proof fn lemma_backoff_pause_grows(k: nat)
    ensures
        backoff_pause(k) <= backoff_pause(k + 1),
{
    lemma_backoff_pause_bounded(k);
}

/// The pauses reach the longest pause after six doublings and stay there.
pub proof fn lemma_backoff_pause_reaches_ceiling(k: nat)
    requires
        k >= 6,
    ensures
        backoff_pause(k) == DIRECTORY_LOCK_RETRY_MAX_INTERVAL_MS,
    decreases k,
{
    if k == 6 {
        reveal_with_fuel(backoff_pause, 7);
    } else {
        lemma_backoff_pause_reaches_ceiling((k - 1) as nat);
    }
}

pub open spec fn contention_message(path: Seq<char>) -> Seq<char> {
    "Waiting for the lock on "@ + path + " to be released"@
}

/// The note that another writer holds the lock on `path`.
pub fn format_lock_contention(base: &DisplayBase, path: &str) -> (r: String)
    ensures
        r@ == contention_message(relative_display(base.cwd(), path@)),
{
    let mut r = owned("Waiting for the lock on ");
    push_str(&mut r, base.relative(path).as_str());
    push_str(&mut r, " to be released");
    r
}

pub open spec fn nested_lock_message(path: Seq<char>, held: Seq<char>) -> Seq<char> {
    "refusing to lock "@ + path + " while "@ + held
        + " is already locked on this thread: nested directory locks are not allowed"@
}

/// The refusal to lock `path` while this thread already holds the lock on
/// `held`.
pub fn nested_lock_error(base: &DisplayBase, path: &str, held: &str) -> (e: Error)
    ensures
        e.kind == ErrorKind::InvalidOperation,
        e.message@ == nested_lock_message(
            relative_display(base.cwd(), path@),
            relative_display(base.cwd(), held@),
        ),
{
    let mut message = owned("refusing to lock ");
    push_str(&mut message, base.relative(path).as_str());
    push_str(&mut message, " while ");
    push_str(&mut message, base.relative(held).as_str());
    push_str(
        &mut message,
        " is already locked on this thread: nested directory locks are not allowed",
    );
    Error::build_invalid_operation_error(message)
}

pub open spec fn lock_timeout_message(path: Seq<char>) -> Seq<char> {
    "Gave up waiting for the lock on "@ + path + " after "@ + decimal(
        DIRECTORY_LOCK_ACQUIRE_TIMEOUT_SECS as nat,
    ) + " seconds; run the command again after the other kapsaro writer finishes"@
}

/// The report of giving up on the lock on `path` after the timeout.
pub fn lock_timeout(base: &DisplayBase, path: &str) -> (e: Error)
    ensures
        e.kind == ErrorKind::Io,
        e.message@ == lock_timeout_message(relative_display(base.cwd(), path@)),
{
    let mut message = owned("Gave up waiting for the lock on ");
    push_str(&mut message, base.relative(path).as_str());
    push_str(&mut message, " after ");
    push_str(&mut message, format_decimal(DIRECTORY_LOCK_ACQUIRE_TIMEOUT_SECS).as_str());
    push_str(
        &mut message,
        " seconds; run the command again after the other kapsaro writer finishes",
    );
    Error::build_io_error(message)
}

} // verus!
