//! When a pass is started: once at the beginning, then after every new file,
//! and never while another pass over the directory is running.

use vstd::prelude::*;

verus! {

/// What was created, as the file watcher reports it.
#[derive(Clone, Copy, Debug, PartialEq, Eq, Structural)]
pub enum CreateKind {
    /// The watcher does not know what was created.
    Any,
    /// A file was created.
    File,
    /// A directory was created.
    Folder,
    /// Something else was created.
    Other,
}

/// The kind of change that the file watcher reports.
#[derive(Clone, Copy, Debug, PartialEq, Eq, Structural)]
pub enum EventKind {
    /// The watcher does not know what happened.
    Any,
    /// Something was read or opened.
    Access,
    /// Something was created.
    Create(CreateKind),
    /// Something was changed.
    Modify,
    /// Something was removed.
    Remove,
    /// Anything else.
    Other,
}

/// Whether a reported change asks for a new pass: only the creation of a
/// file does.
pub fn handle_notify_event(kind: EventKind) -> (run: bool)
    ensures
        run == (kind == EventKind::Create(CreateKind::File)),
{
    match kind {
        EventKind::Create(CreateKind::File) => true,
        _ => false,
    }
}

/// What the watch loop is doing.
#[derive(Clone, Copy, Debug, PartialEq, Eq, Structural)]
pub enum Watch {
    /// No pass is running.
    Idle,
    /// A pass is running, and nothing has asked for another one.
    Running,
    /// A pass is running, and a new file has been seen since it started:
    /// another pass is owed.
    Pending,
    /// A pass is running, and the loop ends when it is done.
    Stopping,
    /// The loop has ended.
    Stopped,
}

/// What reaches the watch loop.
#[derive(Clone, Copy, Debug, PartialEq, Eq, Structural)]
pub enum Signal {
    /// A new file was seen in the directory.
    NewFile,
    /// The running pass is done.
    PassDone,
    /// The operator interrupted the program.
    Interrupt,
}

/// What the watch loop does in answer to a signal.
#[derive(Clone, Copy, Debug, PartialEq, Eq, Structural)]
pub enum Command {
    /// Start a pass now.
    StartPass,
    /// Do nothing and wait for the next signal.
    Wait,
    /// Leave the loop.
    Exit,
}

impl Watch {
    /// Whether a pass is running in this state.
    pub open spec fn pass_running(self) -> bool {
        self == Watch::Running || self == Watch::Pending || self == Watch::Stopping
    }

    /// The state and the command that follow from a signal. A new file that
    /// is seen while a pass runs is remembered, and answered by one more pass
    /// when the running one is done. After an interrupt no pass is started;
    /// the running one is left to finish.
    pub open spec fn react(self, signal: Signal) -> (Watch, Command) {
        match (self, signal) {
            (Watch::Idle, Signal::NewFile) => (Watch::Running, Command::StartPass),
            (Watch::Idle, Signal::PassDone) => (Watch::Idle, Command::Wait),
            (Watch::Idle, Signal::Interrupt) => (Watch::Stopped, Command::Exit),
            (Watch::Running, Signal::NewFile) => (Watch::Pending, Command::Wait),
            (Watch::Running, Signal::PassDone) => (Watch::Idle, Command::Wait),
            (Watch::Running, Signal::Interrupt) => (Watch::Stopping, Command::Wait),
            (Watch::Pending, Signal::NewFile) => (Watch::Pending, Command::Wait),
            (Watch::Pending, Signal::PassDone) => (Watch::Running, Command::StartPass),
            (Watch::Pending, Signal::Interrupt) => (Watch::Stopping, Command::Wait),
            (Watch::Stopping, Signal::PassDone) => (Watch::Stopped, Command::Exit),
            (Watch::Stopping, _) => (Watch::Stopping, Command::Wait),
            (Watch::Stopped, _) => (Watch::Stopped, Command::Exit),
        }
    }

    /// The state in which the loop begins: the first pass is started at
    /// once. Without watching, the loop ends when that pass is done.
    pub fn begin(watching: bool) -> (state: Watch)
        ensures
            state == if watching {
                Watch::Running
            } else {
                Watch::Stopping
            },
    {
        if watching {
            Watch::Running
        } else {
            Watch::Stopping
        }
    }

    /// Takes a signal: gives the next state, and what to do now.
    pub fn on_signal(self, signal: Signal) -> (r: (Watch, Command))
        ensures
            r == self.react(signal),
    {
        match (self, signal) {
            (Watch::Idle, Signal::NewFile) => (Watch::Running, Command::StartPass),
            (Watch::Idle, Signal::PassDone) => (Watch::Idle, Command::Wait),
            (Watch::Idle, Signal::Interrupt) => (Watch::Stopped, Command::Exit),
            (Watch::Running, Signal::NewFile) => (Watch::Pending, Command::Wait),
            (Watch::Running, Signal::PassDone) => (Watch::Idle, Command::Wait),
            (Watch::Running, Signal::Interrupt) => (Watch::Stopping, Command::Wait),
            (Watch::Pending, Signal::NewFile) => (Watch::Pending, Command::Wait),
            (Watch::Pending, Signal::PassDone) => (Watch::Running, Command::StartPass),
            (Watch::Pending, Signal::Interrupt) => (Watch::Stopping, Command::Wait),
            (Watch::Stopping, Signal::PassDone) => (Watch::Stopped, Command::Exit),
            (Watch::Stopping, _) => (Watch::Stopping, Command::Wait),
            (Watch::Stopped, _) => (Watch::Stopped, Command::Exit),
        }
    }
}

/// Passes never overlap. A pass is started only when none is running: either
/// the loop was idle, or the signal was the end of the running pass. And
/// whenever a pass is started, the loop knows that one is running.
pub proof fn lemma_one_pass_at_a_time(state: Watch, signal: Signal)
    ensures
        state.react(signal).1 == Command::StartPass ==> (!state.pass_running() || signal
            == Signal::PassDone) && state.react(signal).0.pass_running(),
        state.pass_running() && signal != Signal::PassDone ==> state.react(signal).0.pass_running(),
{
}

/// No new file is forgotten. A new file that is seen while the loop is
/// watching either starts a pass at once, or is remembered until the running
/// pass is done, and then starts one.
pub proof fn lemma_new_file_is_answered(state: Watch)
    requires
        state == Watch::Idle || state == Watch::Running || state == Watch::Pending,
    ensures
        state.react(Signal::NewFile).1 == Command::StartPass || state.react(
            Signal::NewFile,
        ).0.react(Signal::PassDone).1 == Command::StartPass,
{
}

/// An interrupt ends the loop. From the interrupt on no pass is started,
/// whatever signals follow, and the loop exits as soon as no pass is running.
pub proof fn lemma_interrupt_starts_nothing(state: Watch, later: Seq<Signal>)
    ensures
        forall|k: int|
            0 <= k < later.len() ==> (#[trigger] state_after_signals(
                state.react(Signal::Interrupt).0,
                later.take(k),
            )).react(later[k]).1 != Command::StartPass,
        !state.pass_running() ==> state.react(Signal::Interrupt).1 == Command::Exit,
{
    assert forall|k: int| 0 <= k < later.len() implies (#[trigger] state_after_signals(
        state.react(Signal::Interrupt).0,
        later.take(k),
    )).react(later[k]).1 != Command::StartPass by {
        lemma_stopping_stays(state.react(Signal::Interrupt).0, later.take(k));
    }
}

/// The state that the loop reaches from `state` through a run of signals.
pub open spec fn state_after_signals(state: Watch, signals: Seq<Signal>) -> Watch
    decreases signals.len(),
{
    if signals.len() == 0 {
        state
    } else {
        state_after_signals(state, signals.drop_last()).react(signals.last()).0
    }
}

proof fn lemma_stopping_stays(state: Watch, signals: Seq<Signal>)
    requires
        state == Watch::Stopping || state == Watch::Stopped,
    ensures
        state_after_signals(state, signals) == Watch::Stopping || state_after_signals(
            state,
            signals,
        ) == Watch::Stopped,
    decreases signals.len(),
{
    if signals.len() > 0 {
        lemma_stopping_stays(state, signals.drop_last());
    }
}

} // verus!
