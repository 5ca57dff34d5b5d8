use vstd::prelude::*;

verus! {

/// Where one logical stream stands.
#[derive(Clone, Copy, Debug, PartialEq, Eq, Structural)]
pub enum StreamState {
    /// No stream, no worker, no capture process.
    Idle,
    /// A one-frame probe capture is in flight; no worker exists yet.
    Probing,
    /// A worker owns a running capture process.
    Running,
    /// The worker was told to stop and has not exited yet. With `restart`, a
    /// new stream is started once it has.
    Stopping { restart: bool },
}

/// What the caller or the worker reports to the controller.
#[derive(Clone, Copy, Debug, PartialEq, Eq, Structural)]
pub enum StreamEvent {
    /// The caller asks for a stream.
    Start,
    /// The caller asks for the stream to end.
    Stop,
    /// The caller asks for the stream to end and a new one to begin.
    Restart,
    /// The probe capture returned a frame.
    ProbeSucceeded,
    /// The probe capture failed (could not spawn, process failed, short read).
    ProbeFailed,
    /// The worker has terminated its capture process and exited.
    WorkerExited,
}

/// What the controller must do next.
#[derive(Clone, Copy, Debug, PartialEq, Eq, Structural)]
pub enum StreamAction {
    Nothing,
    /// Capture one frame synchronously, then report the outcome.
    RunProbe,
    /// Make a fresh stream handle and hand it to a new worker thread.
    SpawnWorker,
    /// Clear the running stream's flag.
    SignalStop,
}

/// The stream reports itself active.
pub open spec fn spec_is_active(s: StreamState) -> bool {
    s is Running
}

/// A worker (and its capture process) exists in this state.
pub open spec fn worker_alive(s: StreamState) -> bool {
    s is Running || s is Stopping
}

/// The action starts a new capture process.
pub open spec fn launches_process(a: StreamAction) -> bool {
    a is RunProbe || a is SpawnWorker
}

/// The transition taken on `e` in state `s`.
pub open spec fn spec_next(s: StreamState, e: StreamEvent) -> (StreamState, StreamAction) {
    match (s, e) {
        (StreamState::Idle, StreamEvent::Start) => (StreamState::Probing, StreamAction::RunProbe),
        (StreamState::Idle, StreamEvent::Restart) => (StreamState::Probing, StreamAction::RunProbe),
        (StreamState::Probing, StreamEvent::ProbeSucceeded) => (
            StreamState::Running,
            StreamAction::SpawnWorker,
        ),
        (StreamState::Probing, StreamEvent::ProbeFailed) => (StreamState::Idle, StreamAction::Nothing),
        (StreamState::Probing, StreamEvent::Stop) => (StreamState::Idle, StreamAction::Nothing),
        (StreamState::Running, StreamEvent::Stop) => (
            StreamState::Stopping { restart: false },
            StreamAction::SignalStop,
        ),
        (StreamState::Running, StreamEvent::Restart) => (
            StreamState::Stopping { restart: true },
            StreamAction::SignalStop,
        ),
        (StreamState::Running, StreamEvent::WorkerExited) => (StreamState::Idle, StreamAction::Nothing),
        (StreamState::Stopping { restart: _ }, StreamEvent::Start) => (
            StreamState::Stopping { restart: true },
            StreamAction::Nothing,
        ),
        (StreamState::Stopping { restart: _ }, StreamEvent::Restart) => (
            StreamState::Stopping { restart: true },
            StreamAction::Nothing,
        ),
        (StreamState::Stopping { restart: _ }, StreamEvent::Stop) => (
            StreamState::Stopping { restart: false },
            StreamAction::Nothing,
        ),
        (StreamState::Stopping { restart }, StreamEvent::WorkerExited) => if restart {
            (StreamState::Probing, StreamAction::RunProbe)
        } else {
            (StreamState::Idle, StreamAction::Nothing)
        },
        _ => (s, StreamAction::Nothing),
    }
}

impl StreamState {
    /// The state before any stream was started.
    pub fn initial() -> (r: StreamState)
        ensures
            r == StreamState::Idle,
            !spec_is_active(r),
    {
        StreamState::Idle
    }

    /// Whether the stream reports itself active: from a successful probe until
    /// a stop request or the worker's own exit.
    pub fn is_active(&self) -> (r: bool)
        ensures
            r == spec_is_active(*self),
    {
        matches!(self, StreamState::Running)
    }

    /// Whether a worker may still hold a capture process.
    pub fn has_worker(&self) -> (r: bool)
        ensures
            r == worker_alive(*self),
    {
        matches!(self, StreamState::Running | StreamState::Stopping { .. })
    }

    /// The controller's decision on `event`: the next state and the action to take.
    pub fn next(&self, event: StreamEvent) -> (r: (StreamState, StreamAction))
        ensures
            r == spec_next(*self, event),
    {
        match (*self, event) {
            (StreamState::Idle, StreamEvent::Start) => (StreamState::Probing, StreamAction::RunProbe),
            (StreamState::Idle, StreamEvent::Restart) => (
                StreamState::Probing,
                StreamAction::RunProbe,
            ),
            (StreamState::Probing, StreamEvent::ProbeSucceeded) => (
                StreamState::Running,
                StreamAction::SpawnWorker,
            ),
            (StreamState::Probing, StreamEvent::ProbeFailed) => (
                StreamState::Idle,
                StreamAction::Nothing,
            ),
            (StreamState::Probing, StreamEvent::Stop) => (StreamState::Idle, StreamAction::Nothing),
            (StreamState::Running, StreamEvent::Stop) => (
                StreamState::Stopping { restart: false },
                StreamAction::SignalStop,
            ),
            (StreamState::Running, StreamEvent::Restart) => (
                StreamState::Stopping { restart: true },
                StreamAction::SignalStop,
            ),
            (StreamState::Running, StreamEvent::WorkerExited) => (
                StreamState::Idle,
                StreamAction::Nothing,
            ),
            (StreamState::Stopping { .. }, StreamEvent::Start) => (
                StreamState::Stopping { restart: true },
                StreamAction::Nothing,
            ),
            (StreamState::Stopping { .. }, StreamEvent::Restart) => (
                StreamState::Stopping { restart: true },
                StreamAction::Nothing,
            ),
            (StreamState::Stopping { .. }, StreamEvent::Stop) => (
                StreamState::Stopping { restart: false },
                StreamAction::Nothing,
            ),
            (StreamState::Stopping { restart }, StreamEvent::WorkerExited) => {
                if restart {
                    (StreamState::Probing, StreamAction::RunProbe)
                } else {
                    (StreamState::Idle, StreamAction::Nothing)
                }
            },
            (s, _) => (s, StreamAction::Nothing),
        }
    }
}

/// Starting is idempotent: a start request while the stream is active changes
/// nothing and launches nothing, so there is still exactly one worker and one
/// capture process.
pub proof fn lemma_start_when_active_is_no_op(s: StreamState)
    requires
        spec_is_active(s),
    ensures
        spec_next(s, StreamEvent::Start) == (s, StreamAction::Nothing),
        spec_next(spec_next(s, StreamEvent::Start).0, StreamEvent::Start) == (
            s,
            StreamAction::Nothing,
        ),
{
}

/// Stopping is always safe: a stop request when nothing runs changes nothing,
/// the stream is inactive before any start, and after any stop request it
/// reports itself inactive.
pub proof fn lemma_stop_is_safe(s: StreamState)
    ensures
        spec_next(StreamState::Idle, StreamEvent::Stop) == (StreamState::Idle, StreamAction::Nothing),
        !spec_is_active(StreamState::Idle),
        !spec_is_active(spec_next(s, StreamEvent::Stop).0),
        !launches_process(spec_next(s, StreamEvent::Stop).1),
{
}

/// No two capture processes at once: every transition that launches a process
/// starts from a state in which no worker holds one, or is the old worker's own
/// report that it has exited and released its process. In particular a restart of
/// a running stream only signals the old worker; the new probe comes after the
/// old worker has reported its exit.
pub proof fn lemma_one_process_at_a_time(s: StreamState, e: StreamEvent)
    ensures
        launches_process(spec_next(s, e).1) ==> !worker_alive(s) || e is WorkerExited,
        s is Running ==> spec_next(s, StreamEvent::Restart) == (
            StreamState::Stopping { restart: true },
            StreamAction::SignalStop,
        ),
        spec_next(StreamState::Stopping { restart: true }, StreamEvent::WorkerExited) == (
            StreamState::Probing,
            StreamAction::RunProbe,
        ),
{
}

/// A worker that ends on its own (its capture process exited or a read came
/// up short) leaves the stream inactive with no worker.
pub proof fn lemma_worker_exit_ends_stream(s: StreamState)
    ensures
        !spec_is_active(spec_next(s, StreamEvent::WorkerExited).0),
        s is Running ==> spec_next(s, StreamEvent::WorkerExited) == (
            StreamState::Idle,
            StreamAction::Nothing,
        ),
        !(s is Stopping) ==> !worker_alive(spec_next(s, StreamEvent::WorkerExited).0),
{
}

/// A failed probe leaves the stream inactive and starts no worker.
pub proof fn lemma_failed_probe_spawns_nothing(s: StreamState)
    ensures
        spec_next(StreamState::Probing, StreamEvent::ProbeFailed) == (
            StreamState::Idle,
            StreamAction::Nothing,
        ),
        spec_next(s, StreamEvent::ProbeFailed).1 != StreamAction::SpawnWorker,
        spec_is_active(spec_next(s, StreamEvent::ProbeFailed).0) ==> spec_is_active(s),
{
}

} // verus!
