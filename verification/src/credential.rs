//! Credential freshness coordination: the shared cookie artifact is
//! refreshed by at most one runner at a time, and only when it is absent or
//! older than the configured maximum age. All callers hold one shared lock
//! around `ensure_fresh`, so serialized calls model every interleaving.

use vstd::prelude::*;

verus! {

/// What a caller observed of the on-disk credential artifact: missing, or
/// present with the age of its last modification. An artifact whose age
/// cannot be read is reported as present with age zero, which is never
/// stale.
#[derive(Clone, Copy, Debug, PartialEq, Eq, Structural)]
pub enum CredentialStatus {
    Absent,
    Present { age_secs: u64 },
}

/// Stale means absent, or last modified longer ago than the maximum age.
pub open spec fn stale(status: CredentialStatus, max_age_secs: u64) -> bool {
    match status {
        CredentialStatus::Absent => true,
        CredentialStatus::Present { age_secs } => age_secs > max_age_secs,
    }
}

/// Whether the credential artifact needs a refresh before use.
pub fn needs_refresh(status: &CredentialStatus, max_age_secs: u64) -> (r: bool)
    ensures
        r == stale(*status, max_age_secs),
{
    match status {
        CredentialStatus::Absent => true,
        CredentialStatus::Present { age_secs } => *age_secs > max_age_secs,
    }
}

/// What `ensure_fresh` decided: run the external refresh action, or nothing.
#[derive(Clone, Copy, Debug, PartialEq, Eq, Structural)]
pub enum EnsureAction {
    NoRefresh,
    Refresh,
}

/// A refresh is due only in file mode, and only for a stale artifact. In
/// browser mode the downloader exports live credentials on every run and the
/// freshness machinery is bypassed.
pub open spec fn refresh_needed(
    source_is_file: bool,
    status: CredentialStatus,
    max_age_secs: u64,
) -> bool {
    source_is_file && stale(status, max_age_secs)
}

/// The artifact as observed after one serialized `ensure_fresh` call whose
/// refresh action, if one was due, succeeded: a refresh rewrites the
/// artifact, so it is then present and just modified.
pub open spec fn after_ensure(
    source_is_file: bool,
    status: CredentialStatus,
    max_age_secs: u64,
) -> CredentialStatus {
    if refresh_needed(source_is_file, status, max_age_secs) {
        CredentialStatus::Present { age_secs: 0 }
    } else {
        status
    }
}

/// Decides refreshes and counts how many were invoked. One coordinator is
/// shared by all requests and the background sweeper; its callers serialize
/// through one mutual-exclusion lock.
pub struct CredentialCoordinator {
    source_is_file: bool,
    max_age_secs: u64,
    refresh_invocations: u64,
}

impl CredentialCoordinator {
    pub closed spec fn source_is_file(&self) -> bool {
        self.source_is_file
    }

    pub closed spec fn max_age(&self) -> u64 {
        self.max_age_secs
    }

    pub closed spec fn invocations(&self) -> u64 {
        self.refresh_invocations
    }

    pub fn new(source_is_file: bool, max_age_secs: u64) -> (c: CredentialCoordinator)
        ensures
            c.source_is_file() == source_is_file,
            c.max_age() == max_age_secs,
            c.invocations() == 0,
    {
        CredentialCoordinator { source_is_file, max_age_secs, refresh_invocations: 0 }
    }

    /// How many refresh actions this coordinator has decided to run.
    pub fn refresh_count(&self) -> (n: u64)
        ensures
            n == self.invocations(),
    {
        self.refresh_invocations
    }

    /// Decide, under the shared lock, whether the observed artifact calls
    /// for a refresh. A fresh artifact (and any artifact in browser mode)
    /// costs nothing: no action is returned and the invocation counter is
    /// untouched.
    pub fn ensure_fresh(&mut self, status: &CredentialStatus) -> (a: EnsureAction)
        ensures
            final(self).source_is_file() == old(self).source_is_file(),
            final(self).max_age() == old(self).max_age(),
            (a is Refresh) == refresh_needed(
                old(self).source_is_file(),
                *status,
                old(self).max_age(),
            ),
            a is Refresh ==> final(self).invocations() == if old(self).invocations()
                < u64::MAX { old(self).invocations() + 1 } else { old(self).invocations() as int },
            a is NoRefresh ==> final(self).invocations() == old(self).invocations(),
    {
        if !self.source_is_file {
            return EnsureAction::NoRefresh;
        }
        if needs_refresh(status, self.max_age_secs) {
            if self.refresh_invocations < u64::MAX {
                self.refresh_invocations = self.refresh_invocations + 1;
            }
            EnsureAction::Refresh
        } else {
            EnsureAction::NoRefresh
        }
    }
}

/// Repeating `ensure_fresh` on an already fresh artifact performs no refresh
/// action, whatever the source mode.
pub proof fn lemma_ensure_fresh_idempotent(
    source_is_file: bool,
    status: CredentialStatus,
    max_age_secs: u64,
)
    requires
        !stale(status, max_age_secs),
    ensures
        !refresh_needed(source_is_file, status, max_age_secs),
        after_ensure(source_is_file, status, max_age_secs) == status,
{
}

/// Two requests arriving while the artifact is stale trigger exactly one
/// refresh: the lock serializes them, the first refreshes, and the second
/// then observes the artifact the refresh just rewrote, which is fresh.
pub proof fn lemma_concurrent_stale_single_refresh(status: CredentialStatus, max_age_secs: u64)
    requires
        stale(status, max_age_secs),
    ensures
        refresh_needed(true, status, max_age_secs),
        !refresh_needed(true, after_ensure(true, status, max_age_secs), max_age_secs),
{
}

} // verus!
