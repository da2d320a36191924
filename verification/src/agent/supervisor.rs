//! Supervisor decisions: registering spawned agents, the lifecycle of an
//! agent's task as a state machine over registry updates, cancellation, and
//! waiting for agents to finish.
//!
//! The task runtime (spawning, permits, timeouts, contexts on disk) performs
//! the actions these functions choose and reports back the events.

use vstd::prelude::*;

use crate::error::{error_message, OrcError, OrcResult};
use crate::types::{current_time_millis, AgentId, Priority, TaskGroupId};

use super::registry::{lists, AgentRegistry};
use super::{settle, state_is_terminal, state_name, transition_allowed, AgentRecord, AgentState};

verus! {

/// Configuration for the agent supervisor.
#[derive(Debug)]
pub struct SupervisorConfig {
    /// Maximum number of agents executing concurrently.
    pub max_concurrency: usize,
    /// Timeout for a single agent execution, in milliseconds.
    pub agent_timeout_ms: u64,
    /// Base path for agent context directories.
    pub context_base_path: String,
    /// Whether to clean up context directories after completion.
    pub cleanup_contexts: bool,
}

impl SupervisorConfig {
    /// The default configuration under the given base path: 8 concurrent
    /// agents, a 300 s timeout, and contexts cleaned up.
    pub fn with_base_path(context_base_path: String) -> (c: Self)
        ensures
            c.max_concurrency == 8,
            c.agent_timeout_ms == 300_000,
            c.context_base_path == context_base_path,
            c.cleanup_contexts,
    {
        SupervisorConfig {
            max_concurrency: 8,
            agent_timeout_ms: 300_000,
            context_base_path,
            cleanup_contexts: true,
        }
    }
}

/// Register a freshly spawned task as a new agent in Queued state with a new
/// random ID. Fails, changing nothing, only if that ID is already registered.
pub fn register_spawned(
    registry: &mut AgentRegistry,
    name: String,
    priority: Priority,
    group: Option<TaskGroupId>,
) -> (r: OrcResult<AgentId>)
    requires
        old(registry).wf(),
    ensures
        final(registry).wf(),
        r matches Ok(id) ==> !old(registry)@.contains_key(id.0) && exists|t: i64|
            final(registry)@ == old(registry)@.insert(id.0, AgentRecord::spec_new(id, name, priority, group, t)),
        r matches Err(e) ==> final(registry)@ == old(registry)@ && (e matches OrcError::InvalidStateTransition {
            id,
            from,
            to,
        } && old(registry)@.contains_key(id.0) && from@ == "exists"@ && to@ == "register"@),
{
    let id = AgentId::new();
    let record = AgentRecord::new(id, name, priority, group);
    match registry.register(record) {
        Ok(()) => Ok(id),
        Err(e) => Err(e),
    }
}

/// Something the task runtime reports about an agent's task.
#[derive(Debug)]
pub enum LifecycleEvent {
    /// The task started and wants an execution permit.
    Started,
    /// No permit can be had (the semaphore was closed).
    PermitUnavailable,
    /// A permit was acquired.
    PermitAcquired,
    /// The context directory could not be created, for this reason.
    ContextFailed(String),
    /// The context directory is ready.
    ContextReady,
    /// The task succeeded and returned its output.
    Completed,
    /// The output serialized to this JSON text.
    Serialized(String),
    /// The output could not be serialized, for this reason.
    SerializationFailed(String),
    /// The task returned this error.
    Failed(OrcError),
    /// The task did not finish within the timeout.
    TimedOut,
}

/// What the task runtime is to do next.
#[derive(Debug, PartialEq, Eq, Structural)]
pub enum LifecycleAction {
    /// Acquire an execution permit.
    AcquirePermit,
    /// Create the agent's context directory.
    CreateContext,
    /// Execute the task, under the timeout.
    Execute,
    /// Serialize the task's output to JSON.
    Serialize,
    /// Remove the context directory, then stop.
    CleanupContext,
    /// Stop.
    Stop,
}

/// `new` is `old` marked failed with error message `msg` at some time: in
/// state Error unless `old` was already in a terminal state, which it keeps.
pub open spec fn failed_as(old: AgentRecord, new: AgentRecord, msg: Seq<char>) -> bool {
    &&& new.state == settle(old.state, AgentState::Error)
    &&& new.error matches Some(e) && e@ == msg
    &&& new == AgentRecord { state: new.state, error: new.error, updated_at: new.updated_at, ..old }
}

/// A running agent that fails ends in Error with the failure's message:
/// whatever marks it failed moves it out of any non-terminal state.
pub proof fn lemma_failure_ends_in_error(old: AgentRecord, new: AgentRecord, msg: Seq<char>)
    requires
        failed_as(old, new, msg),
        !state_is_terminal(old.state),
    ensures
        new.state == AgentState::Error,
        state_is_terminal(new.state),
        new.error matches Some(e) && e@ == msg,
        new.id == old.id && new.result == old.result,
{
}

/// The action once the task has run: clean up the context if so configured.
pub open spec fn done_action(cleanup: bool) -> LifecycleAction {
    if cleanup {
        LifecycleAction::CleanupContext
    } else {
        LifecycleAction::Stop
    }
}

/// The registry after an agent's record changed to `new`, if it was registered;
/// otherwise unchanged.
pub open spec fn record_changed(
    old: Map<u128, AgentRecord>,
    new: Map<u128, AgentRecord>,
    id: AgentId,
    f: spec_fn(AgentRecord, AgentRecord) -> bool,
) -> bool {
    if old.contains_key(id.0) {
        new.contains_key(id.0) && new == old.insert(id.0, new[id.0]) && f(old[id.0], new[id.0])
    } else {
        new == old
    }
}

/// Mark an agent failed at time `now`: state Error (where the lifecycle
/// allows it), then the error message.
fn fail_agent(registry: &mut AgentRegistry, id: &AgentId, msg: String, now: i64)
    requires
        old(registry).wf(),
    ensures
        final(registry).wf(),
        record_changed(old(registry)@, final(registry)@, *id, |o: AgentRecord, n: AgentRecord| failed_as(o, n, msg@)),
{
    let _ = registry.update_state_at(id, AgentState::Error, now);
    let _ = registry.set_error_at(id, msg, now);
    assert(old(registry)@.contains_key(id.0) ==> final(registry)@ =~= old(registry)@.insert(id.0, final(registry)@[id.0]));
}

/// The next step of an agent's task after `event`, applying the registry
/// updates the event calls for at the current time. A move out of a terminal
/// state is refused by the registry, so an agent already finished (say,
/// cancelled) keeps its state.
///
/// - `Started`: the agent moves to Acquiring and a permit is acquired; if it
///   is not registered, or already finished, stop.
/// - `PermitUnavailable`: the agent fails with "semaphore closed"; stop.
/// - `PermitAcquired`: create the context.
/// - `ContextFailed(reason)`: the agent fails with the message of the context
///   creation error; stop.
/// - `ContextReady`: the agent moves to Executing; execute.
/// - `Completed`: the agent moves to Reporting; serialize the output.
/// - `Serialized(json)`: the agent gets the result and moves to Done.
/// - `SerializationFailed(e)`: the agent fails with "serialization: e".
/// - `Failed(err)`: the agent fails with the message of `err`.
/// - `TimedOut`: the agent fails with "execution timed out".
///
/// After the task has run, the context is cleaned up if so configured.
pub fn lifecycle_step(
    registry: &mut AgentRegistry,
    id: &AgentId,
    event: LifecycleEvent,
    cleanup: bool,
) -> (a: LifecycleAction)
    requires
        old(registry).wf(),
    ensures
        final(registry).wf(),
        event is Started && old(registry)@.contains_key(id.0) && !state_is_terminal(old(registry)@[id.0].state)
            ==> a == LifecycleAction::AcquirePermit && exists|t: i64|
            final(registry)@ == old(registry)@.insert(id.0, old(registry)@[id.0].with_state(AgentState::Acquiring, t)),
        event is Started && !(old(registry)@.contains_key(id.0) && !state_is_terminal(old(registry)@[id.0].state))
            ==> a == LifecycleAction::Stop && final(registry)@ == old(registry)@,
        event is PermitUnavailable ==> record_changed(old(registry)@, final(registry)@, *id,
            |x: AgentRecord, y: AgentRecord| failed_as(x, y, "semaphore closed"@)) && a == LifecycleAction::Stop,
        event is PermitAcquired ==> final(registry)@ == old(registry)@ && a == LifecycleAction::CreateContext,
        event matches LifecycleEvent::ContextFailed(reason) ==> record_changed(old(registry)@, final(registry)@, *id,
            |x: AgentRecord, y: AgentRecord| failed_as(x, y, error_message(OrcError::ContextCreation { id: *id, reason })))
            && a == LifecycleAction::Stop,
        event is ContextReady ==> record_changed(old(registry)@, final(registry)@, *id,
            |x: AgentRecord, y: AgentRecord| exists|t: i64| y == x.moved_to(AgentState::Executing, t))
            && a == LifecycleAction::Execute,
        event is Completed ==> record_changed(old(registry)@, final(registry)@, *id,
            |x: AgentRecord, y: AgentRecord| exists|t: i64| y == x.moved_to(AgentState::Reporting, t))
            && a == LifecycleAction::Serialize,
        event matches LifecycleEvent::Serialized(json) ==> record_changed(old(registry)@, final(registry)@, *id,
            |x: AgentRecord, y: AgentRecord| exists|t: i64| y == (AgentRecord {
                state: settle(x.state, AgentState::Done),
                result: Some(json),
                updated_at: t,
                ..x
            }))
            && a == done_action(cleanup),
        event matches LifecycleEvent::SerializationFailed(e) ==> record_changed(old(registry)@, final(registry)@, *id,
            |x: AgentRecord, y: AgentRecord| failed_as(x, y, "serialization: "@ + e@)) && a == done_action(cleanup),
        event matches LifecycleEvent::Failed(err) ==> record_changed(old(registry)@, final(registry)@, *id,
            |x: AgentRecord, y: AgentRecord| failed_as(x, y, error_message(err))) && a == done_action(cleanup),
        event is TimedOut ==> record_changed(old(registry)@, final(registry)@, *id,
            |x: AgentRecord, y: AgentRecord| failed_as(x, y, "execution timed out"@)) && a == done_action(cleanup),
        old(registry)@.contains_key(id.0) && !state_is_terminal(old(registry)@[id.0].state) ==> final(registry)@.contains_key(id.0)
            && final(registry)@[id.0].state == match event {
                LifecycleEvent::Started => AgentState::Acquiring,
                LifecycleEvent::PermitUnavailable => AgentState::Error,
                LifecycleEvent::PermitAcquired => old(registry)@[id.0].state,
                LifecycleEvent::ContextFailed(_) => AgentState::Error,
                LifecycleEvent::ContextReady => AgentState::Executing,
                LifecycleEvent::Completed => AgentState::Reporting,
                LifecycleEvent::Serialized(_) => AgentState::Done,
                LifecycleEvent::SerializationFailed(_) => AgentState::Error,
                LifecycleEvent::Failed(_) => AgentState::Error,
                LifecycleEvent::TimedOut => AgentState::Error,
            },
{
    let done_action = if cleanup {
        LifecycleAction::CleanupContext
    } else {
        LifecycleAction::Stop
    };
    let now = current_time_millis();
    match event {
        LifecycleEvent::Started => {
            match registry.update_state_at(id, AgentState::Acquiring, now) {
                Ok(()) => LifecycleAction::AcquirePermit,
                Err(_) => LifecycleAction::Stop,
            }
        },
        LifecycleEvent::PermitUnavailable => {
            fail_agent(registry, id, crate::text::string_of("semaphore closed"), now);
            LifecycleAction::Stop
        },
        LifecycleEvent::PermitAcquired => LifecycleAction::CreateContext,
        LifecycleEvent::ContextFailed(reason) => {
            let e = OrcError::ContextCreation { id: *id, reason };
            fail_agent(registry, id, e.message(), now);
            LifecycleAction::Stop
        },
        LifecycleEvent::ContextReady => {
            let _ = registry.update_state_at(id, AgentState::Executing, now);
            assert(old(registry)@.contains_key(id.0) ==> final(registry)@ =~= old(registry)@.insert(id.0, final(registry)@[id.0])
                && final(registry)@[id.0] == old(registry)@[id.0].moved_to(AgentState::Executing, now));
            LifecycleAction::Execute
        },
        LifecycleEvent::Completed => {
            let _ = registry.update_state_at(id, AgentState::Reporting, now);
            assert(old(registry)@.contains_key(id.0) ==> final(registry)@ =~= old(registry)@.insert(id.0, final(registry)@[id.0])
                && final(registry)@[id.0] == old(registry)@[id.0].moved_to(AgentState::Reporting, now));
            LifecycleAction::Serialize
        },
        LifecycleEvent::Serialized(json) => {
            let ghost j = json;
            let _ = registry.set_result_at(id, json, now);
            let _ = registry.update_state_at(id, AgentState::Done, now);
            assert(old(registry)@.contains_key(id.0) ==> final(registry)@ =~= old(registry)@.insert(id.0, final(registry)@[id.0])
                && final(registry)@[id.0] == (AgentRecord {
                    state: settle(old(registry)@[id.0].state, AgentState::Done),
                    result: Some(j),
                    updated_at: now,
                    ..old(registry)@[id.0]
                }));
            done_action
        },
        LifecycleEvent::SerializationFailed(e) => {
            let mut msg = crate::text::string_of("serialization: ");
            vstd::string::StringExecFns::append(&mut msg, e.as_str());
            fail_agent(registry, id, msg, now);
            done_action
        },
        LifecycleEvent::Failed(err) => {
            fail_agent(registry, id, err.message(), now);
            done_action
        },
        LifecycleEvent::TimedOut => {
            fail_agent(registry, id, crate::text::string_of("execution timed out"), now);
            done_action
        },
    }
}

/// Cancel an agent whose running task was found (and aborted): it moves to
/// Cancelled, unless it already finished, which the registry refuses.
/// Without a running task the agent is not found.
pub fn cancel_agent(registry: &mut AgentRegistry, id: &AgentId, task_found: bool) -> (r: OrcResult<()>)
    requires
        old(registry).wf(),
    ensures
        final(registry).wf(),
        task_found && old(registry)@.contains_key(id.0) && transition_allowed(old(registry)@[id.0].state, AgentState::Cancelled)
            ==> r is Ok && exists|t: i64|
            final(registry)@ == old(registry)@.insert(id.0, old(registry)@[id.0].with_state(AgentState::Cancelled, t)),
        task_found && old(registry)@.contains_key(id.0) && !transition_allowed(old(registry)@[id.0].state, AgentState::Cancelled)
            ==> final(registry)@ == old(registry)@ && (r matches Err(OrcError::InvalidStateTransition { id: e, from, to })
            && e == *id && from@ == state_name(old(registry)@[id.0].state) && to@ == "cancelled"@),
        !(task_found && old(registry)@.contains_key(id.0)) ==> r == Err::<(), OrcError>(OrcError::AgentNotFound(*id))
            && final(registry)@ == old(registry)@,
{
    if task_found {
        registry.update_state(id, AgentState::Cancelled)
    } else {
        Err(OrcError::AgentNotFound(*id))
    }
}

/// The agents of a group that a group cancellation targets: those not yet in
/// a terminal state, each once.
pub fn cancel_targets(registry: &AgentRegistry, group_id: &TaskGroupId) -> (ids: Vec<AgentId>)
    requires
        registry.wf(),
    ensures
        forall|i: int| 0 <= i < ids@.len() ==> #[trigger] registry@.contains_key(ids@[i].0)
            && registry@[ids@[i].0].group == Some(*group_id) && !state_is_terminal(registry@[ids@[i].0].state),
        forall|i: int, j: int| 0 <= i < ids@.len() && 0 <= j < ids@.len() && i != j ==> #[trigger] ids@[i] != #[trigger] ids@[j],
        forall|k: u128|
            #![trigger registry@[k]]
            registry@.contains_key(k) && registry@[k].group == Some(*group_id) && !state_is_terminal(registry@[k].state)
                ==> exists|i: int| 0 <= i < ids@.len() && #[trigger] ids@[i].0 == k,
{
    let ghost p = |a: AgentRecord| a.group == Some(*group_id) && !state_is_terminal(a.state);
    let agents = registry.collect_where(Ghost(p), Some(*group_id), None, true, None);
    let mut ids: Vec<AgentId> = Vec::new();
    let n = agents.len();
    for i in 0..n
        invariant
            n == agents@.len(),
            ids@ == agents@.take(i as int).map_values(|a: AgentRecord| a.id),
    {
        ids.push(agents[i].id);
        assert(ids@ =~= agents@.take(i + 1).map_values(|a: AgentRecord| a.id));
    }
    assert(agents@.take(n as int) =~= agents@);
    proof {
        assert forall|i: int| 0 <= i < ids@.len() implies #[trigger] registry@.contains_key(ids@[i].0)
            && registry@[ids@[i].0].group == Some(*group_id) && !state_is_terminal(registry@[ids@[i].0].state) by {
            assert(ids@[i] == agents@[i].id);
            assert(p(agents@[i]));
        }
        assert forall|a: int, b: int| 0 <= a < ids@.len() && 0 <= b < ids@.len() && a != b implies #[trigger] ids@[a] != #[trigger] ids@[b] by {
            assert(ids@[a] == agents@[a].id && ids@[b] == agents@[b].id);
        }
        assert forall|k: u128|
            #![trigger registry@[k]]
            registry@.contains_key(k) && registry@[k].group == Some(*group_id) && !state_is_terminal(registry@[k].state)
                implies exists|i: int| 0 <= i < ids@.len() && #[trigger] ids@[i].0 == k by {
            assert(p(registry@[k]));
            let q = choose|q: int| 0 <= q < agents@.len() && #[trigger] agents@[q].id.0 == k;
            assert(ids@[q] == agents@[q].id);
        }
    }
    ids
}

/// Outcome of one look while waiting for agents to finish.
#[derive(Debug)]
pub enum WaitPoll<T> {
    /// The wait is over with this result.
    Ready(OrcResult<T>),
    /// Not yet: look again later.
    Pending,
}

/// One look while waiting for an agent: its record once it is terminal, an
/// error if it is not registered, else keep waiting.
pub fn wait_poll(registry: &AgentRegistry, id: &AgentId) -> (p: WaitPoll<AgentRecord>)
    ensures
        !registry@.contains_key(id.0) ==> p == WaitPoll::<AgentRecord>::Ready(Err(OrcError::AgentNotFound(*id))),
        registry@.contains_key(id.0) && state_is_terminal(registry@[id.0].state) ==> p
            == WaitPoll::<AgentRecord>::Ready(Ok(registry@[id.0])),
        registry@.contains_key(id.0) && !state_is_terminal(registry@[id.0].state) ==> (p is Pending),
{
    match registry.get(id) {
        Some(record) => {
            if record.state.is_terminal() {
                WaitPoll::Ready(Ok(record))
            } else {
                WaitPoll::Pending
            }
        },
        None => WaitPoll::Ready(Err(OrcError::AgentNotFound(*id))),
    }
}

/// One look while waiting for a group: its records once every one is
/// terminal, an error if the group has no agents, else keep waiting.
pub fn wait_group_poll(registry: &AgentRegistry, group_id: &TaskGroupId) -> (p: WaitPoll<Vec<AgentRecord>>)
    requires
        registry.wf(),
    ensures
        (forall|k: u128| #[trigger] registry@.contains_key(k) ==> registry@[k].group != Some(*group_id)) ==> p
            == WaitPoll::<Vec<AgentRecord>>::Ready(Err(OrcError::GroupNotFound(*group_id))),
        p matches WaitPoll::Ready(Ok(agents)) ==> lists(registry@, agents@, |a: AgentRecord| a.group == Some(*group_id))
            && agents@.len() > 0 && (forall|i: int| 0 <= i < agents@.len() ==> #[trigger] state_is_terminal(agents@[i].state)),
        p is Pending ==> (exists|k: u128| #[trigger] registry@.contains_key(k) && registry@[k].group == Some(*group_id)
            && !state_is_terminal(registry@[k].state)),
        (exists|k: u128| #[trigger] registry@.contains_key(k) && registry@[k].group == Some(*group_id)) ==> (p matches WaitPoll::Ready(Ok(_)) || p is Pending),
{
    let agents = registry.get_group(group_id);
    if agents.len() == 0 {
        proof {
            assert forall|k: u128| #[trigger] registry@.contains_key(k) implies registry@[k].group != Some(*group_id) by {
                if registry@[k].group == Some(*group_id) {
                    let i = choose|i: int| 0 <= i < agents@.len() && #[trigger] agents@[i].id.0 == k;
                }
            }
        }
        return WaitPoll::Ready(Err(OrcError::GroupNotFound(*group_id)));
    }
    let n = agents.len();
    let mut i: usize = 0;
    while i < n
        invariant
            n == agents@.len(),
            i <= n,
            lists(registry@, agents@, |a: AgentRecord| a.group == Some(*group_id)),
            forall|j: int| 0 <= j < i ==> #[trigger] state_is_terminal(agents@[j].state),
        decreases n - i,
    {
        if !agents[i].state.is_terminal() {
            proof {
                let k = agents@[i as int].id.0;
                assert(registry@.contains_key(k) && registry@[k] == agents@[i as int]);
            }
            return WaitPoll::Pending;
        }
        i = i + 1;
    }
    proof {
        assert(registry@.contains_key(agents@[0].id.0) && registry@[agents@[0].id.0] == agents@[0]);
    }
    WaitPoll::Ready(Ok(agents))
}

} // verus!
