//! The decisions of the runtime bridge: when the scheduler's pool is made,
//! when a worker thread may attach to the host's runtime, and what the end
//! of a background task is reported as. The caller performs what is
//! decided here.

use vstd::prelude::*;
use vstd::string::*;

verus! {

/// What the host gives to the engine so that its sockets bypass the tunnel.
pub trait SocketProtector: Send + Sync {
    fn protect(&self, fd: i32);
}

/// What the bridge has done so far in this process.
#[derive(Debug, Clone, Copy, PartialEq, Eq, Structural)]
pub struct RuntimeBridge {
    /// Whether the host's runtime handle is on record.
    pub handle_recorded: bool,
    /// Whether the scheduler's pool was made.
    pub ready: bool,
}

/// What is asked of the bridge.
#[derive(Debug, Clone, Copy, PartialEq, Eq, Structural)]
pub enum BridgeEvent {
    /// The host hands over its runtime handle.
    RegisterHandle,
    /// Someone needs the scheduler.
    EnsureReady,
    /// A worker thread of the pool starts.
    WorkerStarted,
    /// The host asks the engine to stop.
    Shutdown,
}

/// What the caller is to do.
#[derive(Debug, Clone, Copy, PartialEq, Eq, Structural)]
pub enum BridgeAction {
    /// Keep the handle for the rest of the process.
    RecordHandle,
    /// Drop the handle: one is on record already.
    KeepHandle,
    /// Make the pool, and hand it out.
    CreatePool,
    /// Hand out the pool that was made.
    UsePool,
    /// Attach the thread to the host's runtime, for as long as it lives.
    AttachThread,
    /// Give up: a worker started before any handle was on record.
    Abort,
    /// Ask the engine to stop; the scheduler stays.
    RequestStop,
}

impl RuntimeBridge {
    /// The bridge of a process that has done nothing yet.
    pub open spec fn initial() -> RuntimeBridge {
        RuntimeBridge { handle_recorded: false, ready: false }
    }

    /// The state after `event`, and what the caller is to do.
    pub open spec fn next(self, event: BridgeEvent) -> (RuntimeBridge, BridgeAction) {
        match event {
            BridgeEvent::RegisterHandle => if self.handle_recorded {
                (self, BridgeAction::KeepHandle)
            } else {
                (
                    RuntimeBridge { handle_recorded: true, ready: self.ready },
                    BridgeAction::RecordHandle,
                )
            },
            BridgeEvent::EnsureReady => if self.ready {
                (self, BridgeAction::UsePool)
            } else {
                (
                    RuntimeBridge { handle_recorded: self.handle_recorded, ready: true },
                    BridgeAction::CreatePool,
                )
            },
            BridgeEvent::WorkerStarted => if self.handle_recorded {
                (self, BridgeAction::AttachThread)
            } else {
                (self, BridgeAction::Abort)
            },
            BridgeEvent::Shutdown => (self, BridgeAction::RequestStop),
        }
    }

    /// The bridge of a process that has done nothing yet.
    pub fn new() -> (bridge: RuntimeBridge)
        ensures
            bridge == RuntimeBridge::initial(),
    {
        RuntimeBridge { handle_recorded: false, ready: false }
    }

    /// Takes one event: moves to the next state and says what to do.
    pub fn step(&mut self, event: BridgeEvent) -> (action: BridgeAction)
        ensures
            (*final(self), action) == old(self).next(event),
    {
        match event {
            BridgeEvent::RegisterHandle => {
                if self.handle_recorded {
                    BridgeAction::KeepHandle
                } else {
                    self.handle_recorded = true;
                    BridgeAction::RecordHandle
                }
            },
            BridgeEvent::EnsureReady => {
                if self.ready {
                    BridgeAction::UsePool
                } else {
                    self.ready = true;
                    BridgeAction::CreatePool
                }
            },
            BridgeEvent::WorkerStarted => {
                if self.handle_recorded {
                    BridgeAction::AttachThread
                } else {
                    BridgeAction::Abort
                }
            },
            BridgeEvent::Shutdown => BridgeAction::RequestStop,
        }
    }
}

/// The host's first call into the bridge: its handle is put on record, then
/// the scheduler is made sure of. Returns what to do with the handle and
/// what to do about the pool.
pub fn setup_tokio(bridge: &mut RuntimeBridge) -> (actions: (BridgeAction, BridgeAction))
    ensures
        ({
            let (recorded, first) = old(bridge).next(BridgeEvent::RegisterHandle);
            let (ready, second) = recorded.next(BridgeEvent::EnsureReady);
            *final(bridge) == ready && actions == (first, second)
        }),
        final(bridge).handle_recorded,
        final(bridge).ready,
{
    let first = bridge.step(BridgeEvent::RegisterHandle);
    let second = bridge.step(BridgeEvent::EnsureReady);
    (first, second)
}

/// The host's request to stop the engine.
pub fn shutdown(bridge: &mut RuntimeBridge) -> (action: BridgeAction)
    ensures
        action == BridgeAction::RequestStop,
        *final(bridge) == *old(bridge),
{
    bridge.step(BridgeEvent::Shutdown)
}

/// The state after a sequence of events.
pub open spec fn run(state: RuntimeBridge, events: Seq<BridgeEvent>) -> RuntimeBridge
    decreases events.len(),
{
    if events.len() == 0 {
        state
    } else {
        run(state.next(events[0]).0, events.drop_first())
    }
}

/// How often a sequence of events has the pool made.
pub open spec fn pools_created(state: RuntimeBridge, events: Seq<BridgeEvent>) -> nat
    decreases events.len(),
{
    if events.len() == 0 {
        0
    } else {
        let (after, action) = state.next(events[0]);
        let made: nat = if action == BridgeAction::CreatePool {
            1
        } else {
            0
        };
        made + pools_created(after, events.drop_first())
    }
}

/// Whatever is asked of the bridge and in whatever order, the pool is made
/// at most once, and never again once it is there; a bridge that is ready
/// stays ready.
pub proof fn pool_is_made_once(state: RuntimeBridge, events: Seq<BridgeEvent>)
    ensures
        pools_created(state, events) <= 1,
        state.ready ==> pools_created(state, events) == 0,
        state.ready ==> run(state, events).ready,
        state.handle_recorded ==> run(state, events).handle_recorded,
    decreases events.len(),
{
    if events.len() > 0 {
        pool_is_made_once(state.next(events[0]).0, events.drop_first());
    }
}

/// From a fresh process, the pool is made exactly once if the scheduler is
/// ever asked for, by the first such request, and every request for it
/// finds the bridge ready afterwards.
pub proof fn first_request_makes_the_pool(events: Seq<BridgeEvent>, i: int)
    requires
        0 <= i < events.len(),
        events[i] == BridgeEvent::EnsureReady,
    ensures
        pools_created(RuntimeBridge::initial(), events) == 1,
        run(RuntimeBridge::initial(), events.subrange(0, i + 1)).ready,
{
    made_by_request(RuntimeBridge::initial(), events, i);
}

/// A request for the scheduler leaves the bridge ready, and has the pool
/// made exactly where the bridge was not ready before.
proof fn made_by_request(state: RuntimeBridge, events: Seq<BridgeEvent>, i: int)
    requires
        0 <= i < events.len(),
        events[i] == BridgeEvent::EnsureReady,
    ensures
        !state.ready ==> pools_created(state, events) == 1,
        run(state, events.subrange(0, i + 1)).ready,
    decreases events.len(),
{
    let after = state.next(events[0]).0;
    let rest = events.drop_first();
    let upto = events.subrange(0, i + 1);
    assert(upto[0] == events[0]);
    if i == 0 {
        pool_is_made_once(after, rest);
        assert(upto.drop_first() =~= Seq::<BridgeEvent>::empty());
        assert(run(after, upto.drop_first()) == after);
        assert(run(state, upto) == run(after, upto.drop_first()));
    } else {
        assert(rest[i - 1] == events[i]);
        made_by_request(after, rest, i - 1);
        assert(upto.drop_first() =~= rest.subrange(0, i));
        assert(run(state, upto) == run(after, upto.drop_first()));
        if after.ready {
            pool_is_made_once(after, rest);
        }
    }
}

/// A worker thread attaches to the host's runtime exactly where the host's
/// handle is on record; without one its start is fatal.
pub proof fn worker_needs_handle(state: RuntimeBridge)
    ensures
        state.next(BridgeEvent::WorkerStarted).1 == (if state.handle_recorded {
            BridgeAction::AttachThread
        } else {
            BridgeAction::Abort
        }),
        state.next(BridgeEvent::WorkerStarted).0 == state,
{
}

/// How a background task ended.
#[derive(Debug, Clone, PartialEq, Eq)]
pub enum TaskEnd {
    /// The task ran to its end.
    Completed,
    /// The task returned a failure, with its message.
    Failed(String),
    /// The task panicked, with the panic's message and, where known, the
    /// place it was raised at.
    Panicked { message: String, location: Option<String> },
}

/// The mathematical value of a [`TaskEnd`].
pub enum TaskEndView {
    Completed,
    Failed(Seq<char>),
    Panicked { message: Seq<char>, location: Option<Seq<char>> },
}

impl View for TaskEnd {
    type V = TaskEndView;

    open spec fn view(&self) -> TaskEndView {
        match self {
            TaskEnd::Completed => TaskEndView::Completed,
            TaskEnd::Failed(message) => TaskEndView::Failed(message@),
            TaskEnd::Panicked { message, location } => TaskEndView::Panicked {
                message: message@,
                location: location.deep_view(),
            },
        }
    }
}

/// What the end of a task is reported as: `None` for a task that ran to its
/// end, else the line to log for its failure.
pub open spec fn task_failure(end: TaskEndView) -> Option<Seq<char>> {
    match end {
        TaskEndView::Completed => None,
        TaskEndView::Failed(message) => Some("task failed: "@ + message),
        TaskEndView::Panicked { message, location } => match location {
            Some(place) => Some("task panicked at "@ + place + ": "@ + message),
            None => Some("task panicked: "@ + message),
        },
    }
}

/// Turns the end of a background task into its report: a panic and a
/// returned failure both become a failure with a line to log, which names
/// the place of a panic where it is known. The bridge's state is not
/// touched: what one task ends as decides nothing for another.
pub fn task_report(end: TaskEnd) -> (failure: Option<String>)
    ensures
        failure.deep_view() == task_failure(end@),
{
    match end {
        TaskEnd::Completed => None,
        TaskEnd::Failed(message) => {
            let mut line = String::from_str("task failed: ");
            line.append(message.as_str());
            Some(line)
        },
        TaskEnd::Panicked { message, location } => {
            let mut line = match location {
                Some(place) => {
                    let mut line = String::from_str("task panicked at ");
                    line.append(place.as_str());
                    line.append(": ");
                    line
                },
                None => String::from_str("task panicked: "),
            };
            line.append(message.as_str());
            Some(line)
        },
    }
}

} // verus!
