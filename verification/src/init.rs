//! The in-container init supervisor, as a state machine.
//!
//! Inside a freshly started container this tool runs as process 1.  It
//! must mask every signal before anything else, fork a dedicated reaper
//! child, move into a fresh session and process group, and then
//! supervise indefinitely.  The decisions — which step comes next, what
//! a failure means, what the reaper child does forever — are verified
//! here; the caller performs each requested [`InitAction`] with real OS
//! primitives and reports what happened as an [`InitEvent`].

use vstd::prelude::*;
use crate::error::RtBoxError;

verus! {

/// Mathematical image of an [`RtBoxInitState`].
#[verifier::ext_equal]
pub ghost struct InitStateV {
    pub uid: int,
    pub gid: int,
    pub username: Seq<char>,
    pub home: Seq<char>,
    pub shell: Seq<char>,
}

/// The host caller's identity, captured before the namespace switch and
/// passed across the runtime boundary: inside the container the process
/// attributes no longer reflect the host caller under a rootless
/// mapping.
pub struct RtBoxInitState<'a> {
    pub uid: i32,
    pub gid: i32,
    pub username: &'a str,
    pub home: &'a str,
    pub shell: &'a str,
}

impl<'a> View for RtBoxInitState<'a> {
    type V = InitStateV;

    open spec fn view(&self) -> InitStateV {
        InitStateV {
            uid: self.uid as int,
            gid: self.gid as int,
            username: self.username@,
            home: self.home@,
            shell: self.shell@,
        }
    }
}

/// Where the supervisor stands.
#[derive(Clone, Copy, Debug, PartialEq, Eq, Structural)]
pub enum InitPhase {
    /// Masking every signal on the current thread, so no child can die
    /// before a reaping mechanism is armed.
    BlockingSignals,
    /// Forking the dedicated reaper child.
    ReaperForked,
    /// Creating a new session and process group, detaching from any
    /// inherited controlling-terminal state (parent branch only).
    SessionEstablished,
    /// Bootstrapping once, then polling host/container health forever.
    Supervising,
    /// The reaper child: waiting on terminated descendants, forever.
    Reaping,
    /// A low-level OS call failed during setup; the process must abort —
    /// a half-initialized process 1 cannot be recovered from inside.
    Aborted,
}

/// What the supervisor asks its caller to perform next.
#[derive(Clone, Copy, Debug, PartialEq, Eq, Structural)]
pub enum InitAction {
    /// Mask all signals on the current thread.
    BlockSignals,
    /// Fork the dedicated reaper child.
    ForkReaper,
    /// Create a new session and a new process group.
    EstablishSession,
    /// Run the one-time bootstrap step (home/shell provisioning).
    RunBootstrap,
    /// Poll host/container health, then sleep one interval.
    PollHealth,
    /// Block waiting for a terminated descendant and reap it.
    WaitForChild,
    /// Terminate the process immediately.
    Abort,
}

/// What the caller reports back after performing an action.
#[derive(Clone, Copy, Debug, PartialEq, Eq, Structural)]
pub enum InitEvent {
    /// The action completed.
    Succeeded,
    /// The OS call failed.
    Failed,
    /// The fork returned in the parent.
    ForkedParent,
    /// The fork returned in the child.
    ForkedChild,
}

/// The action the supervisor requests in a given phase.  In the
/// supervising phase the one-time bootstrap comes before the polling
/// loop.
pub open spec fn action_of(phase: InitPhase, bootstrapped: bool) -> InitAction {
    match phase {
        InitPhase::BlockingSignals => InitAction::BlockSignals,
        InitPhase::ReaperForked => InitAction::ForkReaper,
        InitPhase::SessionEstablished => InitAction::EstablishSession,
        InitPhase::Supervising => if bootstrapped {
            InitAction::PollHealth
        } else {
            InitAction::RunBootstrap
        },
        InitPhase::Reaping => InitAction::WaitForChild,
        InitPhase::Aborted => InitAction::Abort,
    }
}

/// The phase after `event` is reported in `phase`.  Any OS failure
/// during the three setup phases is fatal; the supervising and reaping
/// phases persist forever.
pub open spec fn next_phase(phase: InitPhase, event: InitEvent) -> InitPhase {
    match phase {
        InitPhase::BlockingSignals => match event {
            InitEvent::Succeeded => InitPhase::ReaperForked,
            _ => InitPhase::Aborted,
        },
        InitPhase::ReaperForked => match event {
            InitEvent::ForkedParent => InitPhase::SessionEstablished,
            InitEvent::ForkedChild => InitPhase::Reaping,
            _ => InitPhase::Aborted,
        },
        InitPhase::SessionEstablished => match event {
            InitEvent::Succeeded => InitPhase::Supervising,
            _ => InitPhase::Aborted,
        },
        InitPhase::Supervising => InitPhase::Supervising,
        InitPhase::Reaping => InitPhase::Reaping,
        InitPhase::Aborted => InitPhase::Aborted,
    }
}

/// Whether the one-time bootstrap has happened after `event` in `phase`.
pub open spec fn next_bootstrapped(phase: InitPhase, bootstrapped: bool, event: InitEvent) -> bool {
    if phase == InitPhase::Supervising {
        true
    } else {
        bootstrapped
    }
}

/// The contract every init system honours: drive the supervision duties
/// for the given captured identity and never return under normal
/// operation.  The crate's state machine decides the steps; a driver
/// implementing this trait performs them with real OS primitives.
pub trait RtBoxInitSystem {
    fn run(&self, init_state: &RtBoxInitState);
}

/// The init supervisor: the current phase of the supervision state
/// machine, and whether the one-time bootstrap step has run.
pub struct RtBoxInit {
    pub phase: InitPhase,
    pub bootstrapped: bool,
}

impl RtBoxInit {
    /// A supervisor at the entry of its state machine: about to mask
    /// signals, nothing bootstrapped yet.
    pub fn new() -> (r: Self)
        ensures
            r.phase == InitPhase::BlockingSignals,
            !r.bootstrapped,
    {
        RtBoxInit { phase: InitPhase::BlockingSignals, bootstrapped: false }
    }

    /// The entry guard: a supervisor may only start as process 1 of the
    /// container.  Any other process id is refused with a validation
    /// error, before any signal masking, forking or session change is
    /// requested.
    pub fn start(pid: u32) -> (r: Result<Self, RtBoxError>)
        ensures
            pid == 1 <==> r is Ok,
            r matches Ok(s) ==> s.phase == InitPhase::BlockingSignals && !s.bootstrapped,
            r matches Err(e) ==> e@.command == Some("init"@) && e@.message == Some(
                "this is only supposed to be run as the init system of a container"@,
            ) && e@.root_cause == Some("we are not running as PID 1"@),
    {
        if pid == 1 {
            Ok(RtBoxInit::new())
        } else {
            Err(
                RtBoxError {
                    command: Some("init".to_owned()),
                    message: Some(
                        "this is only supposed to be run as the init system of a container".to_owned(),
                    ),
                    root_cause: Some("we are not running as PID 1".to_owned()),
                },
            )
        }
    }

    /// The action to perform in the current phase.
    pub fn pending_action(&self) -> (a: InitAction)
        ensures
            a == action_of(self.phase, self.bootstrapped),
    {
        match self.phase {
            InitPhase::BlockingSignals => InitAction::BlockSignals,
            InitPhase::ReaperForked => InitAction::ForkReaper,
            InitPhase::SessionEstablished => InitAction::EstablishSession,
            InitPhase::Supervising => if self.bootstrapped {
                InitAction::PollHealth
            } else {
                InitAction::RunBootstrap
            },
            InitPhase::Reaping => InitAction::WaitForChild,
            InitPhase::Aborted => InitAction::Abort,
        }
    }

    /// Advances the state machine on the reported outcome of the
    /// pending action.
    pub fn step(&mut self, event: InitEvent)
        ensures
            final(self).phase == next_phase(old(self).phase, event),
            final(self).bootstrapped == next_bootstrapped(
                old(self).phase,
                old(self).bootstrapped,
                event,
            ),
    {
        let next = match self.phase {
            InitPhase::BlockingSignals => match event {
                InitEvent::Succeeded => InitPhase::ReaperForked,
                _ => InitPhase::Aborted,
            },
            InitPhase::ReaperForked => match event {
                InitEvent::ForkedParent => InitPhase::SessionEstablished,
                InitEvent::ForkedChild => InitPhase::Reaping,
                _ => InitPhase::Aborted,
            },
            InitPhase::SessionEstablished => match event {
                InitEvent::Succeeded => InitPhase::Supervising,
                _ => InitPhase::Aborted,
            },
            InitPhase::Supervising => InitPhase::Supervising,
            InitPhase::Reaping => InitPhase::Reaping,
            InitPhase::Aborted => InitPhase::Aborted,
        };
        if matches!(self.phase, InitPhase::Supervising) {
            self.bootstrapped = true;
        }
        self.phase = next;
    }
}

/// On the happy path the supervisor walks its phases in the documented
/// order: masking signals, then forking the reaper, then establishing
/// the session (in the parent), then supervising — while the forked
/// child goes to reaping.
pub proof fn lemma_happy_path()
    ensures
        next_phase(InitPhase::BlockingSignals, InitEvent::Succeeded) == InitPhase::ReaperForked,
        next_phase(InitPhase::ReaperForked, InitEvent::ForkedParent)
            == InitPhase::SessionEstablished,
        next_phase(InitPhase::ReaperForked, InitEvent::ForkedChild) == InitPhase::Reaping,
        next_phase(InitPhase::SessionEstablished, InitEvent::Succeeded) == InitPhase::Supervising,
{
}

/// Any OS-call failure during the three setup phases is fatal: the
/// machine moves to the aborted phase, whose only action is to abort.
pub proof fn lemma_setup_failure_fatal(phase: InitPhase)
    requires
        phase == InitPhase::BlockingSignals || phase == InitPhase::ReaperForked || phase
            == InitPhase::SessionEstablished,
    ensures
        next_phase(phase, InitEvent::Failed) == InitPhase::Aborted,
        action_of(InitPhase::Aborted, false) == InitAction::Abort,
        action_of(InitPhase::Aborted, true) == InitAction::Abort,
{
}

/// The reaper child reaps forever: no event leaves the reaping phase,
/// and its action is always to wait for a child.
pub proof fn lemma_reaper_reaps_forever(event: InitEvent, bootstrapped: bool)
    ensures
        next_phase(InitPhase::Reaping, event) == InitPhase::Reaping,
        action_of(InitPhase::Reaping, bootstrapped) == InitAction::WaitForChild,
{
}

/// The supervising parent never leaves its monitoring loop: after the
/// one-time bootstrap, every further action is a health poll.
pub proof fn lemma_supervision_persists(event: InitEvent)
    ensures
        next_phase(InitPhase::Supervising, event) == InitPhase::Supervising,
        next_bootstrapped(InitPhase::Supervising, false, event),
        action_of(InitPhase::Supervising, false) == InitAction::RunBootstrap,
        action_of(InitPhase::Supervising, true) == InitAction::PollHealth,
{
}

} // verus!
