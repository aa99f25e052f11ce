//! The control loop of the watcher, as a state machine.
//!
//! The loop owns at most one child process. Whoever drives it performs the
//! [`Action`] that [`ControlLoop::step`] returns (spawn the child, look at the
//! cancellation flag, wait for a batch of changes, run a rebuild command,
//! terminate and reap the child) and hands back the [`Event`] that came of it.
//! Every decision (classification, cooldown, the order of rebuild and restart,
//! shutdown) is taken here.
use crate::classify::{relevant, relevant_changes, relevant_subset};
use crate::cooldown::{allows, cooldown_allows};
use crate::text::texts;
use vstd::prelude::*;

verus! {

/// Where the loop stands.
#[derive(Clone, Copy, Debug, PartialEq, Eq, Structural)]
pub enum Phase {
    /// The first child is being spawned.
    Starting,
    /// Next: look at the cancellation flag.
    Idle,
    /// Next: wait, for a bounded time, for a batch of changes.
    Waiting,
    /// Rebuild command `step` is running.
    Building { step: usize },
    /// Restart: the child is being terminated and reaped.
    Killing,
    /// Restart: the replacement child is being spawned.
    Spawning,
    /// Shutdown: the child is being terminated and reaped.
    ShuttingDown,
    /// The session ended; no child is left.
    Stopped,
    /// A child could not be spawned; the session ended with an error.
    Failed,
}

/// What the driver of the loop must do next.
#[derive(Clone, Copy, Debug, PartialEq, Eq, Structural)]
pub enum Action {
    /// Start a child process; answer `Spawned` or `SpawnFailed`.
    Spawn,
    /// Read the cancellation flag; answer `Flag`.
    CheckCancel,
    /// Wait for the next batch of changes, with a short timeout; answer
    /// `Batch`, `Timeout`, `SourceError` or `Disconnected`.
    Poll,
    /// Run rebuild command `step`; answer `StepDone`.
    Build { step: usize },
    /// Terminate the child and wait until it has exited; answer `Reaped`.
    Kill,
    /// The session is over and no child is running.
    Exit,
    /// The session is over with a fatal error and no child is running.
    Abort,
}

/// What came of an action.
pub enum Event {
    Spawned { now: u64 },
    SpawnFailed,
    Flag { cancelled: bool },
    Timeout,
    /// One bad event from the notification layer; the loop goes on.
    SourceError,
    /// The event source is gone; the loop ends.
    Disconnected,
    /// The paths of one debounced batch, and the time it was received.
    Batch { now: u64, paths: Vec<String> },
    StepDone { ok: bool },
    Reaped,
}

/// The state of the control loop. Times are milliseconds on a monotonic clock.
pub struct ControlLoop {
    pub phase: Phase,
    /// A child process is owned.
    pub child: bool,
    /// When the last restart completed; `None` until the first one, so that
    /// the first change is never held back by the cooldown.
    pub last_restart: Option<u64>,
    pub cooldown_ms: u64,
    /// Number of commands a rebuild runs.
    pub steps: usize,
    /// Outcome of the last rebuild: every command that ran succeeded.
    pub build_ok: bool,
}

/// The action that a phase waits on.
pub open spec fn pending(phase: Phase) -> Action {
    match phase {
        Phase::Starting => Action::Spawn,
        Phase::Idle => Action::CheckCancel,
        Phase::Waiting => Action::Poll,
        Phase::Building { step } => Action::Build { step },
        Phase::Killing => Action::Kill,
        Phase::Spawning => Action::Spawn,
        Phase::ShuttingDown => Action::Kill,
        Phase::Stopped => Action::Exit,
        Phase::Failed => Action::Abort,
    }
}

/// The phases in which a child is owned.
pub open spec fn owns_child(phase: Phase) -> bool {
    match phase {
        Phase::Idle | Phase::Waiting | Phase::Building { .. } | Phase::Killing
        | Phase::ShuttingDown => true,
        _ => false,
    }
}

/// A batch that names some relevant path.
pub open spec fn qualifies(paths: Seq<String>) -> bool {
    relevant_subset(texts(paths)).len() > 0
}

/// An accepted batch starts a rebuild, or goes straight to the restart when
/// a rebuild runs no command.
pub open spec fn begin_restart(s: ControlLoop) -> (ControlLoop, Action) {
    if s.steps > 0 {
        (ControlLoop { phase: Phase::Building { step: 0 }, build_ok: true, ..s }, Action::Build { step: 0 })
    } else {
        (ControlLoop { phase: Phase::Killing, build_ok: true, ..s }, Action::Kill)
    }
}

/// The transition of the loop: its next state and the action to perform.
/// An event that does not answer the pending action changes nothing.
pub open spec fn next(s: ControlLoop, e: Event) -> (ControlLoop, Action) {
    match (s.phase, e) {
        (Phase::Starting, Event::Spawned { .. }) => (
            ControlLoop { phase: Phase::Idle, child: true, ..s },
            Action::CheckCancel,
        ),
        (Phase::Starting, Event::SpawnFailed) | (Phase::Spawning, Event::SpawnFailed) => (
            ControlLoop { phase: Phase::Failed, child: false, ..s },
            Action::Abort,
        ),
        (Phase::Idle, Event::Flag { cancelled }) => if cancelled {
            (ControlLoop { phase: Phase::ShuttingDown, ..s }, Action::Kill)
        } else {
            (ControlLoop { phase: Phase::Waiting, ..s }, Action::Poll)
        },
        (Phase::Waiting, Event::Timeout) | (Phase::Waiting, Event::SourceError) => (
            ControlLoop { phase: Phase::Idle, ..s },
            Action::CheckCancel,
        ),
        (Phase::Waiting, Event::Disconnected) => (
            ControlLoop { phase: Phase::ShuttingDown, ..s },
            Action::Kill,
        ),
        (Phase::Waiting, Event::Batch { now, paths }) => if qualifies(paths@) && allows(
            now,
            s.last_restart,
            s.cooldown_ms,
        ) {
            begin_restart(s)
        } else {
            (ControlLoop { phase: Phase::Idle, ..s }, Action::CheckCancel)
        },
        (Phase::Building { step }, Event::StepDone { ok }) => if ok && step + 1 < s.steps {
            (
                ControlLoop { phase: Phase::Building { step: (step + 1) as usize }, ..s },
                Action::Build { step: (step + 1) as usize },
            )
        } else {
            (ControlLoop { phase: Phase::Killing, build_ok: ok, ..s }, Action::Kill)
        },
        (Phase::Killing, Event::Reaped) => (
            ControlLoop { phase: Phase::Spawning, child: false, ..s },
            Action::Spawn,
        ),
        (Phase::Spawning, Event::Spawned { now }) => (
            ControlLoop { phase: Phase::Idle, child: true, last_restart: Some(now), ..s },
            Action::CheckCancel,
        ),
        (Phase::ShuttingDown, Event::Reaped) => (
            ControlLoop { phase: Phase::Stopped, child: false, ..s },
            Action::Exit,
        ),
        _ => (s, pending(s.phase)),
    }
}

impl ControlLoop {
    /// The loop's own invariant: a child is owned exactly in the phases that
    /// own one, and a running rebuild command is one of the plan's.
    pub open spec fn wf(&self) -> bool {
        &&& self.child == owns_child(self.phase)
        &&& (self.phase matches Phase::Building { step } ==> step < self.steps)
    }

    /// A loop that has not started: its first action spawns the child.
    pub fn new(cooldown_ms: u64, steps: usize) -> (r: Self)
        ensures
            r.wf(),
            r.phase == Phase::Starting,
            !r.child,
            r.last_restart is None,
            r.cooldown_ms == cooldown_ms,
            r.steps == steps,
            r.build_ok,
    {
        ControlLoop {
            phase: Phase::Starting,
            child: false,
            last_restart: None,
            cooldown_ms,
            steps,
            build_ok: true,
        }
    }

    /// The action the loop waits on.
    pub fn pending(&self) -> (r: Action)
        ensures
            r == pending(self.phase),
    {
        match self.phase {
            Phase::Starting => Action::Spawn,
            Phase::Idle => Action::CheckCancel,
            Phase::Waiting => Action::Poll,
            Phase::Building { step } => Action::Build { step },
            Phase::Killing => Action::Kill,
            Phase::Spawning => Action::Spawn,
            Phase::ShuttingDown => Action::Kill,
            Phase::Stopped => Action::Exit,
            Phase::Failed => Action::Abort,
        }
    }

    /// The session is over.
    pub fn is_done(&self) -> (r: bool)
        ensures
            r == (self.phase == Phase::Stopped || self.phase == Phase::Failed),
    {
        match self.phase {
            Phase::Stopped | Phase::Failed => true,
            _ => false,
        }
    }

    fn start_restart(&mut self) -> (r: Action)
        ensures
            (*final(self), r) == begin_restart(*old(self)),
    {
        self.build_ok = true;
        if self.steps > 0 {
            self.phase = Phase::Building { step: 0 };
            Action::Build { step: 0 }
        } else {
            self.phase = Phase::Killing;
            Action::Kill
        }
    }

    /// Takes in what came of the pending action and returns the next one.
    pub fn step(&mut self, e: Event) -> (r: Action)
        requires
            old(self).wf(),
        ensures
            (*final(self), r) == next(*old(self), e),
            final(self).wf(),
    {
        let ghost e0 = e;
        match (self.phase, e) {
            (Phase::Starting, Event::Spawned { .. }) => {
                self.phase = Phase::Idle;
                self.child = true;
                Action::CheckCancel
            },
            (Phase::Starting, Event::SpawnFailed) | (Phase::Spawning, Event::SpawnFailed) => {
                self.phase = Phase::Failed;
                self.child = false;
                Action::Abort
            },
            (Phase::Idle, Event::Flag { cancelled }) => {
                if cancelled {
                    self.phase = Phase::ShuttingDown;
                    Action::Kill
                } else {
                    self.phase = Phase::Waiting;
                    Action::Poll
                }
            },
            (Phase::Waiting, Event::Timeout) | (Phase::Waiting, Event::SourceError) => {
                self.phase = Phase::Idle;
                Action::CheckCancel
            },
            (Phase::Waiting, Event::Disconnected) => {
                self.phase = Phase::ShuttingDown;
                Action::Kill
            },
            (Phase::Waiting, Event::Batch { now, paths }) => {
                let changed = relevant_changes(&paths);
                if changed.len() > 0 && cooldown_allows(now, self.last_restart, self.cooldown_ms) {
                    self.start_restart()
                } else {
                    self.phase = Phase::Idle;
                    Action::CheckCancel
                }
            },
            (Phase::Building { step }, Event::StepDone { ok }) => {
                if ok && step + 1 < self.steps {
                    self.phase = Phase::Building { step: step + 1 };
                    Action::Build { step: step + 1 }
                } else {
                    self.phase = Phase::Killing;
                    self.build_ok = ok;
                    Action::Kill
                }
            },
            (Phase::Killing, Event::Reaped) => {
                self.phase = Phase::Spawning;
                self.child = false;
                Action::Spawn
            },
            (Phase::Spawning, Event::Spawned { now }) => {
                self.phase = Phase::Idle;
                self.child = true;
                self.last_restart = Some(now);
                Action::CheckCancel
            },
            (Phase::ShuttingDown, Event::Reaped) => {
                self.phase = Phase::Stopped;
                self.child = false;
                Action::Exit
            },
            _ => self.pending(),
        }
    }
}

/// Every step keeps the loop's invariant, and the child is handled one at a
/// time: a spawn is asked for only once no child is owned, a kill only while
/// one is, and the session ends only once no child is left.
pub proof fn lemma_single_child(s: ControlLoop, e: Event)
    requires
        s.wf(),
    ensures
        next(s, e).0.wf(),
        next(s, e).1 == Action::Spawn ==> !next(s, e).0.child,
        next(s, e).1 == Action::Kill ==> next(s, e).0.child,
        next(s, e).1 == Action::Exit || next(s, e).1 == Action::Abort ==> !next(s, e).0.child,
{
}

/// Once a restart has terminated and reaped the old child and spawned the new
/// one, exactly one child is owned, the loop is back to watching, and the
/// restart time is recorded.
pub proof fn lemma_restart_leaves_one_child(s: ControlLoop, now: u64)
    requires
        s.wf(),
        s.phase == Phase::Killing,
    ensures
        ({
            let (s1, a1) = next(s, Event::Reaped);
            let (s2, a2) = next(s1, Event::Spawned { now });
            &&& a1 == Action::Spawn
            &&& !s1.child
            &&& s2.child
            &&& s2.wf()
            &&& s2.phase == Phase::Idle
            &&& a2 == Action::CheckCancel
            &&& s2.last_restart == Some(now)
        }),
{
}

/// Cancellation and the loss of the event source end the session the same
/// way: the child is terminated and reaped, then the loop exits with no child.
pub proof fn lemma_single_exit_path(s: ControlLoop)
    requires
        s.wf(),
        s.phase == Phase::Idle || s.phase == Phase::Waiting,
    ensures
        ({
            let (s1, a1) = if s.phase == Phase::Idle {
                next(s, Event::Flag { cancelled: true })
            } else {
                next(s, Event::Disconnected)
            };
            let (s2, a2) = next(s1, Event::Reaped);
            &&& a1 == Action::Kill
            &&& s1.child
            &&& a2 == Action::Exit
            &&& !s2.child
            &&& s2.phase == Phase::Stopped
        }),
{
}

/// A relevant batch that arrives while the cooldown allows a restart starts
/// exactly one rebuild-and-restart cycle; the restart time is left as it was
/// until the new child is up.
pub proof fn lemma_accepted_batch_restarts(s: ControlLoop, now: u64, paths: Vec<String>)
    requires
        s.wf(),
        s.phase == Phase::Waiting,
        qualifies(paths@),
        allows(now, s.last_restart, s.cooldown_ms),
    ensures
        ({
            let (s1, a1) = next(s, Event::Batch { now, paths });
            &&& a1 == (if s.steps > 0 {
                Action::Build { step: 0 }
            } else {
                Action::Kill
            })
            &&& s1.last_restart == s.last_restart
            &&& s1.child
        }),
{
}

/// The cooldown, measured from the completion of the last restart. Let a
/// batch received at `t1` have caused the restart that completes at `tr`.
/// A relevant batch received at `t2` less than the cooldown after `t1` is
/// dropped, with no rebuild and no restart; one received at least the
/// cooldown after `tr` starts a new rebuild-and-restart cycle.
pub proof fn lemma_cooldown(s: ControlLoop, t1: u64, tr: u64, t2: u64, paths: Vec<String>)
    requires
        s.wf(),
        s.phase == Phase::Spawning,
        t1 <= tr <= t2,
        qualifies(paths@),
    ensures
        ({
            let s1 = next(s, Event::Spawned { now: tr }).0;
            let s2 = next(s1, Event::Flag { cancelled: false }).0;
            let (s3, a3) = next(s2, Event::Batch { now: t2, paths });
            &&& (t2 - t1 < s.cooldown_ms ==> a3 == Action::CheckCancel && s3.phase == Phase::Idle
                && s3.last_restart == Some(tr))
            &&& (t2 - tr >= s.cooldown_ms ==> a3 == Action::Kill || a3 == Action::Build { step: 0 })
        }),
{
}

/// `n` copies of `p`.
pub open spec fn copies(p: Seq<char>, n: nat) -> Seq<Seq<char>> {
    Seq::new(n, |i: int| p)
}

proof fn lemma_relevant_copies(p: Seq<char>, n: nat)
    ensures
        relevant_subset(copies(p, n)).len() == (if relevant(p) {
            n
        } else {
            0
        }),
    decreases n,
{
    if n > 0 {
        assert(copies(p, n).drop_last() =~= copies(p, (n - 1) as nat));
        lemma_relevant_copies(p, (n - 1) as nat);
    }
}

/// A batch that names the same path any number of times (at least once) has
/// the same effect on the loop as one that names it once: at most one
/// rebuild-and-restart cycle.
pub proof fn lemma_repeated_path(s: ControlLoop, now: u64, many: Vec<String>, one: Vec<String>, n: nat)
    requires
        n >= 1,
        texts(many@) == copies(texts(one@)[0], n),
        one@.len() == 1,
    ensures
        next(s, Event::Batch { now, paths: many }) == next(s, Event::Batch { now, paths: one }),
{
    let p = texts(one@)[0];
    lemma_relevant_copies(p, n);
    lemma_relevant_copies(p, 1);
    assert(texts(one@) =~= copies(p, 1));
}

} // verus!
