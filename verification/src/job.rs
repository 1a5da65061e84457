//! The per-request resource lifecycle. A job owns three fallible resources —
//! an admission slot, a workspace, a running subprocess — and every exit
//! path (success, failure, cancellation) must give all of them back exactly
//! once. The job is a small state machine: callers report what happened at
//! each step and carry out the cleanup it hands back; a finished job holds
//! nothing, and no transition leaves the finished state, so nothing is ever
//! released twice.

use vstd::prelude::*;

use crate::admission::AdmissionToken;
use crate::outcome::{output_ok, spec_fault, UpstreamFault};

verus! {

/// Where a request stands between admission and completion.
#[derive(Clone, Copy, Debug, PartialEq, Eq, Structural)]
pub enum Phase {
    /// A slot is held; nothing else has been acquired.
    Admitted,
    /// The credential artifact has been ensured fresh.
    CredentialOk,
    /// The request-scoped workspace exists.
    WorkspaceReady,
    /// The downloader subprocess is running.
    Running,
    /// The run was judged successful; the output is being streamed while
    /// the slot and the workspace stay held.
    Streaming,
    /// Every resource has been given back.
    Done,
}

/// What the caller must now release: kill the subprocess, delete the
/// workspace tree, and return the admission slot to its pool.
pub struct Cleanup {
    pub kill_process: bool,
    pub dispose_workspace: bool,
    pub token: Option<AdmissionToken>,
}

/// One request's resources and where it stands. Constructed only from a
/// granted admission token; destroyed only through a transition that hands
/// every held resource back in a [`Cleanup`].
pub struct DownloadJob {
    phase: Phase,
    token: Option<AdmissionToken>,
    workspace_live: bool,
    process_live: bool,
}

impl DownloadJob {
    pub closed spec fn phase(&self) -> Phase {
        self.phase
    }

    pub closed spec fn holds_token(&self) -> bool {
        self.token is Some
    }

    pub closed spec fn has_workspace(&self) -> bool {
        self.workspace_live
    }

    pub closed spec fn has_process(&self) -> bool {
        self.process_live
    }

    /// What each phase holds: the slot from admission to the end of the
    /// stream; the workspace from its creation to the end; the subprocess
    /// only while running. A finished job holds nothing.
    pub open spec fn wf(&self) -> bool {
        match self.phase() {
            Phase::Admitted => self.holds_token() && !self.has_workspace() && !self.has_process(),
            Phase::CredentialOk => self.holds_token() && !self.has_workspace()
                && !self.has_process(),
            Phase::WorkspaceReady => self.holds_token() && self.has_workspace()
                && !self.has_process(),
            Phase::Running => self.holds_token() && self.has_workspace() && self.has_process(),
            Phase::Streaming => self.holds_token() && self.has_workspace() && !self.has_process(),
            Phase::Done => !self.holds_token() && !self.has_workspace() && !self.has_process(),
        }
    }

    pub fn current_phase(&self) -> (p: Phase)
        ensures
            p == self.phase(),
    {
        self.phase
    }

    /// A job begins when admission granted it a slot; nothing else is held.
    pub fn begin(token: AdmissionToken) -> (j: DownloadJob)
        ensures
            j.wf(),
            j.phase() == Phase::Admitted,
    {
        DownloadJob { phase: Phase::Admitted, token: Some(token), workspace_live: false, process_live: false }
    }

    /// Every resource the job still holds, as a cleanup; the job is done.
    fn abandon(&mut self) -> (c: Cleanup)
        ensures
            final(self).wf(),
            final(self).phase() == Phase::Done,
            c.kill_process == old(self).has_process(),
            c.dispose_workspace == old(self).has_workspace(),
            c.token is Some <==> old(self).holds_token(),
    {
        let c = Cleanup {
            kill_process: self.process_live,
            dispose_workspace: self.workspace_live,
            token: self.token.take(),
        };
        self.phase = Phase::Done;
        self.workspace_live = false;
        self.process_live = false;
        c
    }

    /// Report the credential check. On failure the request ends here: the
    /// slot goes back at once, before any workspace or subprocess exists.
    pub fn credential_checked(&mut self, ok: bool) -> (c: Option<Cleanup>)
        requires
            old(self).wf(),
            old(self).phase() == Phase::Admitted,
        ensures
            final(self).wf(),
            ok ==> final(self).phase() == Phase::CredentialOk && c is None,
            !ok ==> final(self).phase() == Phase::Done && (c matches Some(cl) && cl.token is Some
                && !cl.kill_process && !cl.dispose_workspace),
    {
        if ok {
            self.phase = Phase::CredentialOk;
            None
        } else {
            Some(self.abandon())
        }
    }

    /// Report workspace creation. On failure only the slot is given back:
    /// no directory was made and nothing was spawned.
    pub fn workspace_created(&mut self, ok: bool) -> (c: Option<Cleanup>)
        requires
            old(self).wf(),
            old(self).phase() == Phase::CredentialOk,
        ensures
            final(self).wf(),
            ok ==> final(self).phase() == Phase::WorkspaceReady && c is None,
            !ok ==> final(self).phase() == Phase::Done && (c matches Some(cl) && cl.token is Some
                && !cl.kill_process && !cl.dispose_workspace),
    {
        if ok {
            self.phase = Phase::WorkspaceReady;
            self.workspace_live = true;
            None
        } else {
            Some(self.abandon())
        }
    }

    /// The invocation could not even be built (the requested mode's
    /// dependency is missing): the request fails fast, provably before any
    /// subprocess existed, and the slot and workspace go straight back.
    pub fn command_rejected(&mut self) -> (c: Cleanup)
        requires
            old(self).wf(),
            old(self).phase() == Phase::WorkspaceReady,
        ensures
            final(self).wf(),
            final(self).phase() == Phase::Done,
            !old(self).has_process() && !c.kill_process,
            c.dispose_workspace,
            c.token is Some,
    {
        self.abandon()
    }

    /// Report the spawn attempt. On failure nothing is running, so the
    /// cleanup kills nothing and returns the slot and the workspace.
    pub fn spawned(&mut self, ok: bool) -> (c: Option<Cleanup>)
        requires
            old(self).wf(),
            old(self).phase() == Phase::WorkspaceReady,
        ensures
            final(self).wf(),
            ok ==> final(self).phase() == Phase::Running && c is None,
            !ok ==> final(self).phase() == Phase::Done && (c matches Some(cl) && cl.token is Some
                && !cl.kill_process && cl.dispose_workspace),
    {
        if ok {
            self.phase = Phase::Running;
            self.process_live = true;
            None
        } else {
            Some(self.abandon())
        }
    }

    /// The run failed while the subprocess was (or may still be) alive:
    /// waiting failed, or its diagnostic stream could not be captured. The
    /// cleanup kills the subprocess and releases everything.
    pub fn failed_while_running(&mut self) -> (c: Cleanup)
        requires
            old(self).wf(),
            old(self).phase() == Phase::Running,
        ensures
            final(self).wf(),
            final(self).phase() == Phase::Done,
            c.kill_process,
            c.dispose_workspace,
            c.token is Some,
    {
        self.abandon()
    }

    /// The subprocess exited; judge its result. Success — a clean exit, an
    /// existing output file, a non-zero size, all three — moves the job to
    /// streaming, still holding the slot and the workspace. Any violation
    /// ends the job with the first violated condition as the fault, and
    /// everything but the already-exited process to release.
    pub fn process_finished(&mut self, exit_success: bool, file_exists: bool, file_len: u64) -> (r:
        Result<(), (UpstreamFault, Cleanup)>)
        requires
            old(self).wf(),
            old(self).phase() == Phase::Running,
        ensures
            final(self).wf(),
            !final(self).has_process(),
            r is Ok <==> output_ok(exit_success, file_exists, file_len),
            r is Ok ==> final(self).phase() == Phase::Streaming,
            r matches Err((f, cl)) ==> {
                &&& final(self).phase() == Phase::Done
                &&& f == spec_fault(exit_success, file_exists, file_len)
                &&& !cl.kill_process
                &&& cl.dispose_workspace
                &&& cl.token is Some
            },
    {
        self.process_live = false;
        match crate::outcome::judge_output(exit_success, file_exists, file_len) {
            Ok(()) => {
                self.phase = Phase::Streaming;
                Ok(())
            },
            Err(fault) => Err((fault, self.abandon())),
        }
    }

    /// The response stream was drained to its end: the job is over and the
    /// slot and workspace — held for exactly the stream's lifetime — go back.
    pub fn stream_finished(&mut self) -> (c: Cleanup)
        requires
            old(self).wf(),
            old(self).phase() == Phase::Streaming,
        ensures
            final(self).wf(),
            final(self).phase() == Phase::Done,
            !c.kill_process,
            c.dispose_workspace,
            c.token is Some,
    {
        self.abandon()
    }

    /// The caller abandoned the request. Whatever phase the job was in, the
    /// cleanup names exactly what it held: the subprocess is killed if one
    /// runs, the workspace deleted if one exists, the slot returned — all of
    /// them, after which the job holds nothing.
    pub fn cancelled(&mut self) -> (c: Cleanup)
        requires
            old(self).wf(),
            old(self).phase() != Phase::Done,
        ensures
            final(self).wf(),
            final(self).phase() == Phase::Done,
            c.kill_process == old(self).has_process(),
            c.dispose_workspace == old(self).has_workspace(),
            c.token is Some,
    {
        self.abandon()
    }
}

/// A subprocess runs only under a held admission slot, so no more
/// subprocesses run at once than the pool's capacity admits.
pub proof fn lemma_running_holds_slot(j: DownloadJob)
    requires
        j.wf(),
        j.has_process(),
    ensures
        j.holds_token(),
        j.phase() == Phase::Running,
{
}

/// A finished job holds nothing: whichever exit path ended it released the
/// slot, the workspace and the subprocess. Since no transition applies to a
/// finished job, the release also happened exactly once.
pub proof fn lemma_done_holds_nothing(j: DownloadJob)
    requires
        j.wf(),
        j.phase() == Phase::Done,
    ensures
        !j.holds_token(),
        !j.has_workspace(),
        !j.has_process(),
{
}

} // verus!
