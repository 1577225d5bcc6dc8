//! The state machine of a single run.
//!
//! One run is a spawn-to-teardown cycle of the supervised command.  The
//! supervising binary drives a `RunMachine` with the facts it observes
//! (did the spawn succeed, what the interrupt gate and the per-run
//! change flag say, what a non-blocking poll of the child returned) and
//! performs exactly the action each step returns.  Every transition is
//! stated by the spec functions here, so the restart, abort and
//! termination decisions are proved rather than scattered through the
//! event loop.

use vstd::prelude::*;

verus! {

/// Outcome of one non-blocking poll of the child process.
#[derive(PartialEq, Eq, Structural, Clone, Copy, Debug)]
pub enum ExitPoll {
    /// The child has not exited yet.
    StillRunning,
    /// The child exited on its own with this code.
    Exited { code: i32 },
    /// The poll itself failed.
    PollError,
}

/// Phase of a run, from spawn attempt to teardown.
#[derive(PartialEq, Eq, Structural, Clone, Copy, Debug)]
pub enum RunPhase {
    /// The spawn has been requested but its outcome is not yet recorded.
    Spawning,
    /// The child is alive and being polled.
    Running,
    /// The child exited on its own; no termination signal is owed.
    NaturallyExited { code: i32 },
    /// A poll failed; the run is over without a termination signal.
    PollFailed,
    /// A flag went false while the child was alive; the child must be
    /// terminated.
    Aborting,
    /// The termination of an aborted child has been carried out.
    Terminated,
    /// The command could not be started; there is no child to manage.
    SpawnFailed,
    /// The child started but its output streams could not be captured.
    StreamsFailed,
}

/// What the caller must do after recording the spawn outcome.
#[derive(PartialEq, Eq, Structural, Clone, Copy, Debug)]
pub enum SpawnStep {
    /// Start the two relay tasks and begin polling.
    StartRelays,
    /// Log the spawn failure; the run is over.
    LogSpawnError,
    /// Log the missing streams; the run is over.
    LogStreamError,
}

/// What the caller must do after one polling step.
#[derive(PartialEq, Eq, Structural, Clone, Copy, Debug)]
pub enum TickStep {
    /// Keep the child; sleep one poll interval and poll again.
    Sleep,
    /// Log the natural exit with this code; send no termination signal.
    LogNaturalExit { code: i32 },
    /// Log the poll failure; the run is over.
    LogPollError,
    /// Send the termination signal to the child and wait for it.
    Terminate,
}

/// Whether the outer supervision loop begins another run: it does so
/// exactly while the interrupt gate still reports "running".
pub open spec fn spec_keep_running(running: bool) -> bool {
    running
}

/// Transition out of `Spawning`, given whether the spawn succeeded and,
/// if it did, whether both output streams were captured.
pub open spec fn spec_spawn_step(spawned: bool, streams: bool) -> (RunPhase, SpawnStep) {
    if !spawned {
        (RunPhase::SpawnFailed, SpawnStep::LogSpawnError)
    } else if !streams {
        (RunPhase::StreamsFailed, SpawnStep::LogStreamError)
    } else {
        (RunPhase::Running, SpawnStep::StartRelays)
    }
}

/// Transition out of `Running` for one polling step.  The two flags are
/// consulted first, as the loop condition: if either is false the run
/// aborts and the child is terminated.  Only while both hold is the
/// poll outcome acted upon.
pub open spec fn spec_tick(running: bool, env_same: bool, poll: ExitPoll) -> (RunPhase, TickStep) {
    if !(running && env_same) {
        (RunPhase::Aborting, TickStep::Terminate)
    } else {
        match poll {
            ExitPoll::StillRunning => (RunPhase::Running, TickStep::Sleep),
            ExitPoll::Exited { code } => (
                RunPhase::NaturallyExited { code },
                TickStep::LogNaturalExit { code },
            ),
            ExitPoll::PollError => (RunPhase::PollFailed, TickStep::LogPollError),
        }
    }
}

/// A phase in which the run is over and nothing further may happen to
/// its child.
pub open spec fn spec_settled(phase: RunPhase) -> bool {
    match phase {
        RunPhase::Spawning => false,
        RunPhase::Running => false,
        RunPhase::Aborting => false,
        RunPhase::NaturallyExited { .. } => true,
        RunPhase::PollFailed => true,
        RunPhase::Terminated => true,
        RunPhase::SpawnFailed => true,
        RunPhase::StreamsFailed => true,
    }
}

/// The state of one run.  The driving loop owns one machine per run,
/// feeds it observations, and obeys the returned steps.
pub struct RunMachine {
    /// Current phase of this run.
    pub phase: RunPhase,
}

impl RunMachine {
    /// A fresh run, about to attempt its spawn.
    pub fn new() -> (m: RunMachine)
        ensures
            m.phase == RunPhase::Spawning,
    {
        RunMachine { phase: RunPhase::Spawning }
    }

    /// Records the outcome of the spawn attempt.
    pub fn note_spawn(&mut self, spawned: bool, streams: bool) -> (step: SpawnStep)
        requires
            old(self).phase == RunPhase::Spawning,
        ensures
            (final(self).phase, step) == spec_spawn_step(spawned, streams),
    {
        if !spawned {
            self.phase = RunPhase::SpawnFailed;
            SpawnStep::LogSpawnError
        } else if !streams {
            self.phase = RunPhase::StreamsFailed;
            SpawnStep::LogStreamError
        } else {
            self.phase = RunPhase::Running;
            SpawnStep::StartRelays
        }
    }

    /// One polling step: the caller hands in the current value of the
    /// interrupt gate, of the per-run change flag, and of a fresh
    /// non-blocking poll, and must perform the returned step.
    pub fn tick(&mut self, running: bool, env_same: bool, poll: ExitPoll) -> (step: TickStep)
        requires
            old(self).phase == RunPhase::Running,
        ensures
            (final(self).phase, step) == spec_tick(running, env_same, poll),
    {
        if !running || !env_same {
            self.phase = RunPhase::Aborting;
            TickStep::Terminate
        } else {
            match poll {
                ExitPoll::StillRunning => TickStep::Sleep,
                ExitPoll::Exited { code } => {
                    self.phase = RunPhase::NaturallyExited { code };
                    TickStep::LogNaturalExit { code }
                },
                ExitPoll::PollError => {
                    self.phase = RunPhase::PollFailed;
                    TickStep::LogPollError
                },
            }
        }
    }

    /// Records that the termination signal was sent and the blocking
    /// wait for the aborted child has returned (successfully or not:
    /// either way the run proceeds to teardown).
    pub fn note_terminated(&mut self)
        requires
            old(self).phase == RunPhase::Aborting,
        ensures
            final(self).phase == RunPhase::Terminated,
    {
        self.phase = RunPhase::Terminated;
    }

    /// Whether this run still owes its child a termination signal.
    pub fn needs_terminate(&self) -> (b: bool)
        ensures
            b == (self.phase == RunPhase::Aborting),
    {
        match self.phase {
            RunPhase::Aborting => true,
            _ => false,
        }
    }

    /// Whether the run is over.
    pub fn settled(&self) -> (b: bool)
        ensures
            b == spec_settled(self.phase),
    {
        match self.phase {
            RunPhase::Spawning => false,
            RunPhase::Running => false,
            RunPhase::Aborting => false,
            _ => true,
        }
    }
}

/// Whether the outer loop begins another run, read off the interrupt
/// gate alone.
pub fn keep_running(running: bool) -> (b: bool)
    ensures
        b == spec_keep_running(running),
{
    running
}

/// Law: once the interrupt gate reports stopped, the very next polling
/// step aborts the run and orders the child terminated — whatever the
/// change flag and the poll say — and the outer loop starts no further
/// runs.
pub proof fn lemma_interrupt_stops_run(env_same: bool, poll: ExitPoll)
    ensures
        spec_tick(false, env_same, poll) == (RunPhase::Aborting, TickStep::Terminate),
        !spec_keep_running(false),
{
}

/// Law: if a watched path changed during the run, the very next polling
/// step aborts the run and orders the child terminated rather than
/// leaving it to exit on its own.
pub proof fn lemma_change_aborts_run(running: bool, poll: ExitPoll)
    ensures
        spec_tick(running, false, poll) == (RunPhase::Aborting, TickStep::Terminate),
{
}

/// Law: a child that exits on its own, with both flags still true, is
/// never sent a termination signal; the ordered step logs exactly the
/// code the poll reported, and the run settles with that code.
pub proof fn lemma_natural_exit_untouched(code: i32)
    ensures
        spec_tick(true, true, ExitPoll::Exited { code }) == (
            RunPhase::NaturallyExited { code },
            TickStep::LogNaturalExit { code },
        ),
        spec_tick(true, true, ExitPoll::Exited { code }).1 != TickStep::Terminate,
        !(spec_tick(true, true, ExitPoll::Exited { code }).0 == RunPhase::Aborting),
{
}

} // verus!
