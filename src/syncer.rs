//! Decisions of the state syncer: which consensus states reach the state file
//! and in which steps. The caller owns the connection and the files; it hands
//! each event to the session and performs the action that comes back.
//!
//! A state is written in full to a temporary file in the state file's
//! directory and then renamed over the state file. The state file therefore
//! only ever changes at a successful rename, and it never moves backwards in
//! the order of height, round and step.
use vstd::prelude::*;
use crate::consensus::{ConsensusState, StateKey, key_precedes, precedes};

verus! {

/// Why a state update was refused, or why the session ended.
#[derive(Debug, Clone, Copy, PartialEq, Eq, Structural)]
pub enum SyncError {
    /// The frame did not hold a consensus state.
    Decode,
    /// The state comes before the one last persisted.
    Regression,
    /// Writing the temporary file or renaming it failed.
    Io,
}

/// Where the session stands between two events.
#[derive(Debug, Clone, Copy, PartialEq, Eq, Structural)]
pub enum Phase {
    /// Waiting for the next frame from the enclave.
    Idle,
    /// The temporary file is being written.
    WritingTemp,
    /// The temporary file is being renamed over the state file.
    Renaming,
    /// The session is over.
    Closed,
}

/// What the caller does next.
#[derive(Debug, Clone, Copy, PartialEq, Eq, Structural)]
pub enum SyncAction {
    /// Read the next frame.
    ReadNext,
    /// Write the whole encoding of the accepted state to the temporary file.
    WriteTemp,
    /// Rename the temporary file over the state file.
    Rename,
    /// Report the refusal, leave the state file as it is and read the next frame.
    Reject(SyncError),
    /// Report the error; the session ends.
    Fail(SyncError),
    /// The enclave closed the connection; the session ends.
    Close,
    /// Remove the temporary file, if any, and leave the state file as it is;
    /// the session ends.
    DiscardTemp,
}

/// The session as the contracts see it.
pub struct SyncModel {
    pub phase: Phase,
    /// The state last renamed into place during this process's lifetime.
    pub last: Option<StateKey>,
    /// The accepted state on its way to the state file.
    pub pending: Option<StateKey>,
}

/// `new` may replace `last` without going backwards.
pub open spec fn may_follow(new: StateKey, last: Option<StateKey>) -> bool {
    match last {
        None => true,
        Some(l) => !precedes(new, l),
    }
}

/// The state-sync session with one enclave connection.
pub struct SyncSession {
    phase: Phase,
    last: Option<StateKey>,
    pending: Option<StateKey>,
}

impl View for SyncSession {
    type V = SyncModel;

    closed spec fn view(&self) -> SyncModel {
        SyncModel { phase: self.phase, last: self.last, pending: self.pending }
    }
}

impl SyncSession {
    /// Whether the session's parts agree: a state is pending exactly while it
    /// is on its way to the state file, and it never goes behind the last one.
    pub open spec fn wf(&self) -> bool {
        &&& (self@.phase == Phase::WritingTemp || self@.phase == Phase::Renaming) <==> self@.pending is Some
        &&& self@.pending matches Some(p) ==> may_follow(p, self@.last)
    }

    /// A session on a fresh connection: nothing persisted yet.
    pub fn new() -> (r: SyncSession)
        ensures
            r.wf(),
            r@.phase == Phase::Idle,
            r@.last is None,
    {
        SyncSession { phase: Phase::Idle, last: None, pending: None }
    }

    /// Where the session stands.
    pub fn phase(&self) -> (r: Phase)
        ensures
            r == self@.phase,
    {
        self.phase
    }

    /// The state last renamed into place, if any.
    pub fn last(&self) -> (r: Option<StateKey>)
        ensures
            r == self@.last,
    {
        self.last
    }

    /// A frame arrived and was decoded, to a state or to nothing. An
    /// undecodable frame and a state that goes backwards are refused and the
    /// state file is left alone; any other state is accepted for writing.
    pub fn on_frame(&mut self, decoded: Option<ConsensusState>) -> (r: SyncAction)
        requires
            old(self).wf(),
            old(self)@.phase == Phase::Idle,
        ensures
            final(self).wf(),
            final(self)@.last == old(self)@.last,
            decoded is None ==> r == SyncAction::Reject(SyncError::Decode)
                && final(self)@ == old(self)@,
            decoded matches Some(s) ==> {
                if may_follow(s.spec_key(), old(self)@.last) {
                    r == SyncAction::WriteTemp && final(self)@.phase == Phase::WritingTemp
                        && final(self)@.pending == Some(s.spec_key())
                } else {
                    r == SyncAction::Reject(SyncError::Regression) && final(self)@ == old(self)@
                }
            },
    {
        match decoded {
            None => SyncAction::Reject(SyncError::Decode),
            Some(s) => {
                let k = s.key();
                let regresses = match &self.last {
                    None => false,
                    Some(l) => key_precedes(&k, l),
                };
                if regresses {
                    SyncAction::Reject(SyncError::Regression)
                } else {
                    self.phase = Phase::WritingTemp;
                    self.pending = Some(k);
                    SyncAction::WriteTemp
                }
            },
        }
    }

    /// The temporary file was written, or writing it failed. Either way the
    /// state file is untouched: a crash at this point leaves the previous
    /// state in place.
    pub fn on_temp_written(&mut self, ok: bool) -> (r: SyncAction)
        requires
            old(self).wf(),
            old(self)@.phase == Phase::WritingTemp,
        ensures
            final(self).wf(),
            final(self)@.last == old(self)@.last,
            ok ==> r == SyncAction::Rename && final(self)@.phase == Phase::Renaming
                && final(self)@.pending == old(self)@.pending,
            !ok ==> r == SyncAction::Fail(SyncError::Io) && final(self)@.phase == Phase::Closed,
    {
        if ok {
            self.phase = Phase::Renaming;
            SyncAction::Rename
        } else {
            self.phase = Phase::Closed;
            self.pending = None;
            SyncAction::Fail(SyncError::Io)
        }
    }

    /// The rename landed, or failed. Only a rename that landed makes the
    /// pending state the last persisted one.
    pub fn on_renamed(&mut self, ok: bool) -> (r: SyncAction)
        requires
            old(self).wf(),
            old(self)@.phase == Phase::Renaming,
        ensures
            final(self).wf(),
            final(self)@.pending is None,
            final(self)@.last matches Some(n) ==> may_follow(n, old(self)@.last),
            ok ==> r == SyncAction::ReadNext && final(self)@.phase == Phase::Idle
                && final(self)@.last == old(self)@.pending,
            !ok ==> r == SyncAction::Fail(SyncError::Io) && final(self)@.phase == Phase::Closed
                && final(self)@.last == old(self)@.last,
    {
        let p = self.pending;
        self.pending = None;
        if ok {
            self.last = p;
            self.phase = Phase::Idle;
            SyncAction::ReadNext
        } else {
            self.phase = Phase::Closed;
            SyncAction::Fail(SyncError::Io)
        }
    }

    /// The enclave closed the connection, or reading from it failed.
    pub fn on_closed(&mut self) -> (r: SyncAction)
        requires
            old(self).wf(),
        ensures
            final(self).wf(),
            r == SyncAction::Close,
            final(self)@.phase == Phase::Closed,
            final(self)@.last == old(self)@.last,
    {
        self.phase = Phase::Closed;
        self.pending = None;
        SyncAction::Close
    }

    /// The operator asked the session to stop. A state still on its way to
    /// the state file is dropped together with its temporary file; the state
    /// file keeps the last state that was renamed into place.
    pub fn on_shutdown(&mut self) -> (r: SyncAction)
        requires
            old(self).wf(),
        ensures
            final(self).wf(),
            final(self)@.phase == Phase::Closed,
            final(self)@.last == old(self)@.last,
            final(self)@.pending is None,
            old(self)@.pending is Some ==> r == SyncAction::DiscardTemp,
            old(self)@.pending is None ==> r == SyncAction::Close,
    {
        let had_pending = self.pending.is_some();
        self.phase = Phase::Closed;
        self.pending = None;
        if had_pending {
            SyncAction::DiscardTemp
        } else {
            SyncAction::Close
        }
    }
}

} // verus!
