//! The enclave lifecycle as data: what the lifecycle tool reports, and the
//! decisions of the supervisor that starts an enclave, waits for the stop
//! signal and terminates it. The caller runs the tool and the log server and
//! hands each outcome back.
use vstd::prelude::*;

verus! {

/// The information provided by a `describe-enclaves` request.
#[derive(Debug, Clone)]
pub struct EnclaveDescribeInfo {
    /// The full ID of the enclave.
    pub enclave_id: String,
    /// The PID of the enclave process which manages the enclave.
    pub process_id: u32,
    /// The enclave's CID.
    pub enclave_cid: u64,
    /// The number of CPUs used by the enclave.
    pub cpu_count: u64,
    /// The IDs of the CPUs used by the enclave.
    pub cpu_ids: Vec<u32>,
    /// The memory provided to the enclave (in MiB).
    pub memory_mib: u64,
    /// The current state of the enclave.
    pub state: String,
    /// The bit-mask which provides the enclave's launch flags.
    pub flags: String,
}

/// The information provided by a `run-enclave` request.
#[derive(Debug, Clone)]
pub struct EnclaveRunInfo {
    /// The full ID of the enclave.
    pub enclave_id: String,
    /// The PID of the enclave process which manages the enclave.
    pub process_id: u32,
    /// The enclave's CID.
    pub enclave_cid: u64,
    /// The number of CPUs used by the enclave.
    pub cpu_count: usize,
    /// The IDs of the CPUs used by the enclave.
    pub cpu_ids: Vec<u32>,
    /// The memory provided to the enclave (in MiB).
    pub memory_mib: u64,
}

/// The information provided by a `terminate-enclave` request.
#[derive(Debug, Clone)]
pub struct EnclaveTerminateInfo {
    /// The full ID of the enclave.
    pub enclave_id: String,
    /// A flag indicating if the enclave has terminated.
    pub terminated: bool,
}

/// A failure of the lifecycle tool.
#[derive(Debug, Clone)]
pub enum CollaboratorError {
    /// The tool could not be started.
    Spawn { detail: String },
    /// The tool exited unsuccessfully; its diagnostic text and exit code.
    Failed { stderr: String, code: Option<i32> },
    /// The tool succeeded but its output could not be parsed.
    InvalidOutput,
}

/// Accepts the tool's outcome only when it exited successfully; otherwise
/// the error carries its diagnostic text and exit code.
pub fn check_exit(success: bool, code: Option<i32>, stderr: String) -> (r: Result<(), CollaboratorError>)
    ensures
        success <==> r is Ok,
        !success ==> (r matches Err(CollaboratorError::Failed { stderr: e, code: c })
            && e@ == stderr@ && c == code),
{
    if success {
        Ok(())
    } else {
        Err(CollaboratorError::Failed { stderr, code })
    }
}

/// The program that forwards the enclave's cloud traffic.
pub open spec fn proxy_program() -> Seq<char> {
    "vsock-proxy"@
}

/// Some process's command line holds this argument.
pub open spec fn any_process_has_arg(cmds: Seq<Vec<String>>, arg: Seq<char>) -> bool {
    exists|i: int, j: int| 0 <= i < cmds.len() && 0 <= j < cmds[i]@.len() && #[trigger] cmds[i]@[j]@ == arg
}

/// Whether the forwarding proxy runs, given the command line of every
/// process on the host: some argument of some process names it.
pub fn check_vsock_proxy(cmds: &Vec<Vec<String>>) -> (r: bool)
    ensures
        r == any_process_has_arg(cmds@, proxy_program()),
{
    let name = "vsock-proxy".to_owned();
    let mut i: usize = 0;
    while i < cmds.len()
        invariant
            i <= cmds@.len(),
            name@ == proxy_program(),
            forall|a: int, b: int| 0 <= a < i && 0 <= b < cmds@[a]@.len() ==> #[trigger] cmds@[a]@[b]@ != proxy_program(),
        decreases cmds@.len() - i,
    {
        let cmd = &cmds[i];
        let mut j: usize = 0;
        while j < cmd.len()
            invariant
                i < cmds@.len(),
                cmd == cmds@[i as int],
                j <= cmd@.len(),
                name@ == proxy_program(),
                forall|a: int, b: int| 0 <= a < i && 0 <= b < cmds@[a]@.len() ==> #[trigger] cmds@[a]@[b]@ != proxy_program(),
                forall|b: int| 0 <= b < j ==> #[trigger] cmd@[b]@ != proxy_program(),
            decreases cmd@.len() - j,
        {
            if cmd[j] == name {
                return true;
            }
            j = j + 1;
        }
        i = i + 1;
    }
    false
}

/// Why the supervisor gave up.
#[derive(Debug, Clone)]
pub enum RunError {
    /// These enclaves are already active; stop them and try again.
    AlreadyActive(Vec<EnclaveDescribeInfo>),
    /// The lifecycle tool failed.
    Collaborator(CollaboratorError),
    /// The log server could not be started; its diagnostic text.
    LogServer(String),
}

/// Where the supervisor stands.
#[derive(Debug, Clone, Copy, PartialEq, Eq, Structural)]
pub enum RunPhase {
    /// Nothing asked yet.
    Start,
    /// Waiting for the list of active enclaves.
    Describing,
    /// No enclave is active; waiting for the log server.
    StartingLogServer,
    /// Waiting for the tool to run the enclave.
    Launching,
    /// The enclave runs; waiting for the stop signal.
    Running,
    /// Waiting for the enclave to be terminated.
    Stopping,
    /// The enclave was run and stopped.
    Done,
    /// The supervisor gave up.
    Failed,
}

/// What the caller does next.
#[derive(Debug, Clone)]
pub enum RunAction {
    /// Ask the tool which enclaves are active.
    Describe,
    /// Start the enclave log server.
    StartLogServer,
    /// Ask the tool to run the enclave.
    RunDaemon,
    /// Wait for the stop signal.
    WaitForStop,
    /// Ask the tool to terminate the enclave with this id.
    Terminate(String),
    /// All done.
    Finish,
    /// Report the error and end.
    Fail(RunError),
}

/// The supervisor as the contracts see it.
pub struct RunModel {
    pub phase: RunPhase,
    /// The lifecycle tool reported no active enclave.
    pub cleared: bool,
    /// The id of the enclave that was started, while it runs.
    pub running_id: Option<Seq<char>>,
}

/// The decisions of one `run` of the lifecycle supervisor.
pub struct RunSupervisor {
    phase: RunPhase,
    cleared: bool,
    running_id: Option<String>,
}

impl View for RunSupervisor {
    type V = RunModel;

    closed spec fn view(&self) -> RunModel {
        RunModel {
            phase: self.phase,
            cleared: self.cleared,
            running_id: match self.running_id {
                Some(s) => Some(s@),
                None => None,
            },
        }
    }
}

impl RunSupervisor {
    /// A run may only be asked for after the tool reported no active enclave,
    /// and an enclave id is held exactly while the enclave runs.
    pub open spec fn wf(&self) -> bool {
        &&& (self@.phase == RunPhase::StartingLogServer || self@.phase == RunPhase::Launching
            || self@.phase == RunPhase::Running || self@.phase == RunPhase::Stopping
            || self@.phase == RunPhase::Done) ==> self@.cleared
        &&& (self@.phase == RunPhase::Running) <==> self@.running_id is Some
    }

    /// A supervisor that has asked for nothing.
    pub fn new() -> (r: RunSupervisor)
        ensures
            r.wf(),
            r@.phase == RunPhase::Start,
            !r@.cleared,
    {
        RunSupervisor { phase: RunPhase::Start, cleared: false, running_id: None }
    }

    /// Where the supervisor stands.
    pub fn phase(&self) -> (r: RunPhase)
        ensures
            r == self@.phase,
    {
        self.phase
    }

    /// The first step: find out which enclaves are active.
    pub fn begin(&mut self) -> (r: RunAction)
        requires
            old(self).wf(),
            old(self)@.phase == RunPhase::Start,
        ensures
            final(self).wf(),
            r is Describe,
            final(self)@.phase == RunPhase::Describing,
            final(self)@.cleared == old(self)@.cleared,
    {
        self.phase = RunPhase::Describing;
        RunAction::Describe
    }

    /// The tool answered which enclaves are active. Any active enclave, or a
    /// failure of the tool, ends the run before the enclave is started.
    pub fn on_described(&mut self, result: Result<Vec<EnclaveDescribeInfo>, CollaboratorError>) -> (r: RunAction)
        requires
            old(self).wf(),
            old(self)@.phase == RunPhase::Describing,
        ensures
            final(self).wf(),
            result is Err ==> (r matches RunAction::Fail(RunError::Collaborator(_))
                && final(self)@.phase == RunPhase::Failed),
            result matches Ok(v) ==> {
                if v@.len() == 0 {
                    r is StartLogServer && final(self)@.phase == RunPhase::StartingLogServer
                        && final(self)@.cleared
                } else {
                    (r matches RunAction::Fail(RunError::AlreadyActive(a)) && a@ == v@)
                        && final(self)@.phase == RunPhase::Failed
                        && final(self)@.cleared == old(self)@.cleared
                }
            },
    {
        match result {
            Err(e) => {
                self.phase = RunPhase::Failed;
                RunAction::Fail(RunError::Collaborator(e))
            },
            Ok(active) => {
                if active.len() == 0 {
                    self.cleared = true;
                    self.phase = RunPhase::StartingLogServer;
                    RunAction::StartLogServer
                } else {
                    self.phase = RunPhase::Failed;
                    RunAction::Fail(RunError::AlreadyActive(active))
                }
            },
        }
    }

    /// The log server started, or failed to start with this diagnostic.
    pub fn on_log_server(&mut self, result: Result<(), String>) -> (r: RunAction)
        requires
            old(self).wf(),
            old(self)@.phase == RunPhase::StartingLogServer,
        ensures
            final(self).wf(),
            r is RunDaemon ==> old(self)@.cleared,
            result is Ok ==> r is RunDaemon && final(self)@.phase == RunPhase::Launching,
            result is Err ==> (r matches RunAction::Fail(RunError::LogServer(_))
                && final(self)@.phase == RunPhase::Failed),
    {
        match result {
            Ok(()) => {
                self.phase = RunPhase::Launching;
                RunAction::RunDaemon
            },
            Err(e) => {
                self.phase = RunPhase::Failed;
                RunAction::Fail(RunError::LogServer(e))
            },
        }
    }

    /// The tool ran the enclave, or failed to.
    pub fn on_run(&mut self, result: Result<EnclaveRunInfo, CollaboratorError>) -> (r: RunAction)
        requires
            old(self).wf(),
            old(self)@.phase == RunPhase::Launching,
        ensures
            final(self).wf(),
            result is Err ==> (r matches RunAction::Fail(RunError::Collaborator(_))
                && final(self)@.phase == RunPhase::Failed),
            result matches Ok(info) ==> r is WaitForStop && final(self)@.phase == RunPhase::Running
                && final(self)@.running_id == Some(info.enclave_id@),
    {
        match result {
            Err(e) => {
                self.phase = RunPhase::Failed;
                RunAction::Fail(RunError::Collaborator(e))
            },
            Ok(info) => {
                self.running_id = Some(info.enclave_id);
                self.phase = RunPhase::Running;
                RunAction::WaitForStop
            },
        }
    }

    /// The stop signal came: terminate the enclave that was started.
    pub fn on_stop_signal(&mut self) -> (r: RunAction)
        requires
            old(self).wf(),
            old(self)@.phase == RunPhase::Running,
        ensures
            final(self).wf(),
            final(self)@.phase == RunPhase::Stopping,
            (r matches RunAction::Terminate(id) && Some(id@) == old(self)@.running_id),
    {
        let id = self.running_id.take();
        self.phase = RunPhase::Stopping;
        match id {
            Some(id) => RunAction::Terminate(id),
            None => RunAction::Terminate(String::new()),
        }
    }

    /// The tool answered the termination request; whatever it said, the run
    /// is over.
    pub fn on_terminated(&mut self) -> (r: RunAction)
        requires
            old(self).wf(),
            old(self)@.phase == RunPhase::Stopping,
        ensures
            final(self).wf(),
            r is Finish,
            final(self)@.phase == RunPhase::Done,
    {
        self.phase = RunPhase::Done;
        RunAction::Finish
    }
}

/// While the lifecycle tool reports an active enclave, the supervisor fails
/// with the list of those enclaves and can never reach the point where it
/// asks for a run.
pub proof fn lemma_active_enclave_blocks_run(s: RunSupervisor)
    requires
        s.wf(),
        !s@.cleared,
    ensures
        s@.phase != RunPhase::StartingLogServer,
        s@.phase != RunPhase::Launching,
        s@.phase != RunPhase::Running,
{
}

} // verus!
