//! The runtime: the instance registry, the host state, and the invocation
//! pipeline that takes one request through one call of a plugin.
//!
//! A call goes through the phases
//! `Idle -> Dispatching -> AwaitingGuest -> Reclaiming -> Completed | Failed`.
//! Running the plugin and cleaning up after it is the engine's work. The
//! runtime says what the engine is to do next, takes the engine's report, and
//! decides how the call goes on. `Dispatching` lies within one step, and a
//! completed or failed call leaves the runtime idle again, so the runtime is
//! only ever found idle, awaiting the guest, or reclaiming.
//!
//! Whatever the plugin reports, and also when the engine traps, the request
//! is taken out of the arena before the call ends.

use vstd::prelude::*;
use crate::arena::{ArenaView, RequestHandle};
use crate::registry::{is_assigned, InstanceRegistry, InterfaceView, LoadError, Router};
use crate::surface::ComponentRunStates;

verus! {

/// One call of one operation of one plugin instance on the request behind
/// one handle.
#[derive(Clone, Copy, Debug, PartialEq, Eq, Structural)]
pub struct Call {
    /// The id of the plugin instance.
    pub instance: usize,
    /// The index of the operation among those of the instance.
    pub operation: usize,
    pub handle: RequestHandle,
}

/// Where the runtime stands between two steps.
#[derive(Debug)]
pub enum Phase {
    Idle,
    /// The plugin is working on the request behind the call's handle.
    AwaitingGuest(Call),
    /// The plugin has returned with this verdict; the engine cleans up.
    Reclaiming(Call, Result<(), String>),
}

/// What the engine reports.
#[derive(Debug)]
pub enum Event {
    /// The plugin returned a success marker or an error message.
    Returned(Result<(), String>),
    /// The plugin faulted.
    Trapped(String),
    /// The cleanup after the call is done.
    CleanedUp,
    /// The cleanup after the call failed.
    CleanupFailed(String),
}

/// Why an invocation failed.
#[derive(Debug, PartialEq, Eq)]
pub enum RuntimeError {
    /// No plugin instance has this id.
    NotFound(usize),
    /// The plugin instance has no operation of the name that was asked for.
    UnknownOperation,
    /// The arena has no handle left for the request.
    Exhausted,
    /// A call was started while another was in flight, or the engine reported
    /// something that was not asked of it. A call in flight is given up.
    OutOfTurn,
    /// The request had left the arena before the call was over.
    Internal,
    /// The plugin reported a failure of its own.
    Plugin(String),
    /// The engine faulted while it ran the plugin or cleaned up after it.
    EngineTrap(String),
}

/// A failed invocation, with the request where it could be taken back.
#[derive(Debug)]
pub struct Failure<R> {
    pub error: RuntimeError,
    pub request: Option<R>,
}

/// What is to happen next.
#[derive(Debug)]
pub enum Action<R> {
    /// The engine is to run the operation with the handle as its argument.
    CallGuest(Call),
    /// The engine is to run its cleanup for the operation.
    PostReturn(Call),
    /// The invocation is over, with the request as the plugin left it or with
    /// a failure.
    Done(Result<R, Failure<R>>),
}

/// The runtime as the contracts see it.
pub struct RuntimeView<R> {
    pub arena: ArenaView<R>,
    /// The plugin instances in the order in which they were added. The
    /// instance with the id `i` stands at `i - 1`.
    pub instances: Seq<InterfaceView>,
    pub phase: Phase,
}

impl<R> RuntimeView<R> {
    pub open spec fn wf(self) -> bool {
        self.arena.wf()
    }

    /// The ids in use are 1 up to the number of instances.
    pub open spec fn has_instance(self, id: usize) -> bool {
        is_assigned(self.instances, id)
    }

    pub open spec fn instance(self, id: usize) -> InterfaceView {
        self.instances[id - 1]
    }

    /// The call that is in flight, if one is.
    pub open spec fn call_in_flight(self) -> Option<Call> {
        match self.phase {
            Phase::Idle => None,
            Phase::AwaitingGuest(call) => Some(call),
            Phase::Reclaiming(call, _) => Some(call),
        }
    }

    /// Why an invocation is turned down before anything happens, if it is.
    pub open spec fn refusal(self, id: usize, operation: Seq<char>) -> Option<RuntimeError> {
        if !(self.phase is Idle) {
            Some(RuntimeError::OutOfTurn)
        } else if !self.has_instance(id) {
            Some(RuntimeError::NotFound(id))
        } else if !self.instance(id).has_operation(operation) {
            Some(RuntimeError::UnknownOperation)
        } else if !self.arena.has_room() {
            Some(RuntimeError::Exhausted)
        } else {
            None
        }
    }

    /// Whether `call` is a call of `operation` on the instance `id` with a
    /// handle that was never in use.
    pub open spec fn admits(self, call: Call, id: usize, operation: Seq<char>) -> bool {
        &&& call.instance == id
        &&& self.instance(id).is_position_of(call.operation as int, operation)
        &&& !self.arena.minted.contains(call.handle.rep)
    }

    /// The runtime after `request` was dispatched as `call`.
    pub open spec fn dispatched(self, call: Call, request: R) -> RuntimeView<R> {
        RuntimeView {
            arena: self.arena.inserted(call.handle, request),
            instances: self.instances,
            phase: Phase::AwaitingGuest(call),
        }
    }

    /// The runtime after the request of `call` was taken back.
    pub open spec fn reclaimed(self, call: Call) -> RuntimeView<R> {
        RuntimeView {
            arena: self.arena.removed(call.handle),
            instances: self.instances,
            phase: Phase::Idle,
        }
    }

    /// How a call ends once its request is taken back: with the request if
    /// the verdict is good, with the verdict's error and the request if it is
    /// not, and with an internal error if the request is not there.
    pub open spec fn settle(self, call: Call, verdict: Result<(), RuntimeError>) -> Result<
        R,
        Failure<R>,
    > {
        if !self.arena.is_live(call.handle) {
            Err(Failure { error: RuntimeError::Internal, request: None })
        } else {
            match verdict {
                Ok(()) => Ok(self.arena.live[call.handle.rep]),
                Err(error) => Err(
                    Failure { error, request: Some(self.arena.live[call.handle.rep]) },
                ),
            }
        }
    }

    /// The verdict with which a call ends when the engine reports `event`
    /// while the plugin is awaited, or `None` where the call goes on.
    pub open spec fn verdict_while_awaiting(event: Event) -> Option<RuntimeError> {
        match event {
            Event::Returned(_) => None,
            Event::Trapped(message) => Some(RuntimeError::EngineTrap(message)),
            _ => Some(RuntimeError::OutOfTurn),
        }
    }

    /// The verdict with which a call ends when the engine reports `event`
    /// while the request is being reclaimed.
    pub open spec fn verdict_while_reclaiming(guest: Result<(), String>, event: Event) -> Result<
        (),
        RuntimeError,
    > {
        match event {
            Event::CleanedUp => match guest {
                Ok(()) => Ok(()),
                Err(message) => Err(RuntimeError::Plugin(message)),
            },
            Event::CleanupFailed(message) => Err(RuntimeError::EngineTrap(message)),
            _ => Err(RuntimeError::OutOfTurn),
        }
    }

    /// The step that the runtime takes on a report of the engine: the runtime
    /// afterwards, and what is to happen next.
    pub open spec fn resume(self, event: Event) -> (RuntimeView<R>, Action<R>) {
        match self.phase {
            Phase::Idle => (
                self,
                Action::Done(Err(Failure { error: RuntimeError::OutOfTurn, request: None })),
            ),
            Phase::AwaitingGuest(call) => match event {
                Event::Returned(guest) => (
                    RuntimeView {
                        arena: self.arena,
                        instances: self.instances,
                        phase: Phase::Reclaiming(call, guest),
                    },
                    Action::PostReturn(call),
                ),
                _ => (
                    self.reclaimed(call),
                    Action::Done(
                        self.settle(call, Err(Self::verdict_while_awaiting(event)->Some_0)),
                    ),
                ),
            },
            Phase::Reclaiming(call, guest) => (
                self.reclaimed(call),
                Action::Done(self.settle(call, Self::verdict_while_reclaiming(guest, event))),
            ),
        }
    }
}

/// A host runtime for plugins that rewrite requests of the type `R`.
///
/// One runtime runs one call at a time. Runtimes share nothing.
pub struct Runtime<R> {
    states: ComponentRunStates<R>,
    instances: InstanceRegistry,
    phase: Phase,
}

impl<R> View for Runtime<R> {
    type V = RuntimeView<R>;

    closed spec fn view(&self) -> RuntimeView<R> {
        RuntimeView {
            arena: self.states@,
            instances: self.instances@,
            phase: self.phase,
        }
    }
}

impl<R> Runtime<R> {
    pub open spec fn wf(&self) -> bool {
        self@.wf()
    }

    /// A runtime without plugin instances and without requests.
    pub fn new() -> (runtime: Runtime<R>)
        ensures
            runtime.wf(),
            runtime@ == (RuntimeView {
                arena: ArenaView::<R>::empty(),
                instances: Seq::<InterfaceView>::empty(),
                phase: Phase::Idle,
            }),
    {
        Runtime {
            states: ComponentRunStates::new(),
            instances: InstanceRegistry::new(),
            phase: Phase::Idle,
        }
    }

    /// Registers a loaded plugin under the next id: one more than the number
    /// of instances, which is the greatest id in use. Ids start at 1 and none
    /// is given out twice.
    pub fn add_instance(&mut self, router: Router) -> (id: Result<usize, LoadError>)
        ensures
            id is Ok <==> old(self)@.instances.len() < usize::MAX,
            match id {
                Ok(id) => {
                    &&& id == old(self)@.instances.len() + 1
                    &&& !old(self)@.has_instance(id)
                    &&& final(self)@ == (RuntimeView {
                        arena: old(self)@.arena,
                        instances: old(self)@.instances.push(router@),
                        phase: old(self)@.phase,
                    })
                },
                Err(e) => e == LoadError::RegistryFull && final(self)@ == old(self)@,
            },
    {
        self.instances.register(router)
    }

    /// The number of plugin instances, which is the greatest id in use.
    pub fn instance_count(&self) -> (count: usize)
        ensures
            count == self@.instances.len(),
    {
        self.instances.len()
    }

    /// The plugin instance with the id `id`.
    pub fn lookup(&self, id: usize) -> (found: Result<&Router, RuntimeError>)
        ensures
            match found {
                Ok(router) => self@.has_instance(id) && router@ == self@.instance(id),
                Err(e) => !self@.has_instance(id) && e == RuntimeError::NotFound(id),
            },
    {
        match self.instances.lookup(id) {
            Ok(router) => Ok(router),
            Err(e) => Err(RuntimeError::NotFound(e.id)),
        }
    }

    /// Whether no call is in flight.
    pub fn is_idle(&self) -> (idle: bool)
        ensures
            idle == (self@.phase is Idle),
    {
        match self.phase {
            Phase::Idle => true,
            _ => false,
        }
    }

    /// The host state that the capability surface acts on.
    pub fn states(&self) -> (states: &ComponentRunStates<R>)
        ensures
            states@ == self@.arena,
    {
        &self.states
    }

    /// The host state, for the calls that a plugin makes while it is awaited.
    pub fn states_mut(&mut self) -> (states: &mut ComponentRunStates<R>)
        ensures
            states@ == old(self)@.arena,
            final(self)@ == (RuntimeView {
                arena: final(states)@,
                instances: old(self)@.instances,
                phase: old(self)@.phase,
            }),
    {
        &mut self.states
    }

    /// Starts a call of the operation called `operation` on the plugin
    /// instance `id`. The request moves into the arena under a fresh handle,
    /// and the engine is asked to run the operation on that handle. Where the
    /// call cannot start, nothing changes and the request comes back with the
    /// reason.
    pub fn invoke(&mut self, id: usize, operation: &str, request: R) -> (action: Action<R>)
        requires
            old(self).wf(),
        ensures
            final(self).wf(),
            old(self)@.arena.evolves_to(final(self)@.arena),
            match old(self)@.refusal(id, operation@) {
                Some(error) => {
                    &&& final(self)@ == old(self)@
                    &&& action == Action::Done(Err(Failure { error, request: Some(request) }))
                },
                None => {
                    &&& action matches Action::CallGuest(call)
                    &&& old(self)@.admits(call, id, operation@)
                    &&& final(self)@ == old(self)@.dispatched(call, request)
                },
            },
    {
        if !self.is_idle() {
            return Action::Done(Err(Failure { error: RuntimeError::OutOfTurn, request: Some(request) }));
        }
        let index = match self.lookup(id) {
            Err(error) => {
                return Action::Done(Err(Failure { error, request: Some(request) }));
            },
            Ok(router) => match router.operation_index(operation) {
                None => {
                    return Action::Done(
                        Err(Failure { error: RuntimeError::UnknownOperation, request: Some(request) }),
                    );
                },
                Some(index) => index,
            },
        };
        match self.states.requests.insert(request) {
            Err(full) => Action::Done(
                Err(Failure { error: RuntimeError::Exhausted, request: Some(full.request) }),
            ),
            Ok(handle) => {
                let call = Call { instance: id, operation: index, handle };
                self.phase = Phase::AwaitingGuest(call);
                Action::CallGuest(call)
            },
        }
    }

    /// Starts a call of the operation `handle`.
    pub fn call_handle(&mut self, id: usize, request: R) -> (action: Action<R>)
        requires
            old(self).wf(),
        ensures
            final(self).wf(),
            old(self)@.arena.evolves_to(final(self)@.arena),
            match old(self)@.refusal(id, "handle"@) {
                Some(error) => {
                    &&& final(self)@ == old(self)@
                    &&& action == Action::Done(Err(Failure { error, request: Some(request) }))
                },
                None => {
                    &&& action matches Action::CallGuest(call)
                    &&& old(self)@.admits(call, id, "handle"@)
                    &&& final(self)@ == old(self)@.dispatched(call, request)
                },
            },
    {
        self.invoke(id, "handle", request)
    }

    /// Starts a call of the operation `handle-request`.
    pub fn call_handle_request(&mut self, id: usize, param: R) -> (action: Action<R>)
        requires
            old(self).wf(),
        ensures
            final(self).wf(),
            old(self)@.arena.evolves_to(final(self)@.arena),
            match old(self)@.refusal(id, "handle-request"@) {
                Some(error) => {
                    &&& final(self)@ == old(self)@
                    &&& action == Action::Done(Err(Failure { error, request: Some(param) }))
                },
                None => {
                    &&& action matches Action::CallGuest(call)
                    &&& old(self)@.admits(call, id, "handle-request"@)
                    &&& final(self)@ == old(self)@.dispatched(call, param)
                },
            },
    {
        self.invoke(id, "handle-request", param)
    }

    /// Starts a call of the operation `handle-response`.
    pub fn call_handle_response(&mut self, id: usize, param: R) -> (action: Action<R>)
        requires
            old(self).wf(),
        ensures
            final(self).wf(),
            old(self)@.arena.evolves_to(final(self)@.arena),
            match old(self)@.refusal(id, "handle-response"@) {
                Some(error) => {
                    &&& final(self)@ == old(self)@
                    &&& action == Action::Done(Err(Failure { error, request: Some(param) }))
                },
                None => {
                    &&& action matches Action::CallGuest(call)
                    &&& old(self)@.admits(call, id, "handle-response"@)
                    &&& final(self)@ == old(self)@.dispatched(call, param)
                },
            },
    {
        self.invoke(id, "handle-response", param)
    }

    /// Takes the engine's report and says how the call goes on.
    ///
    /// When the plugin has returned, the engine is asked to clean up, and
    /// after that the request is taken out of the arena and the call ends:
    /// with the request, or with the plugin's own error and the request. A
    /// trap, a failed cleanup and a report out of turn end the call at once;
    /// the request is taken out of the arena all the same.
    pub fn resume(&mut self, event: Event) -> (action: Action<R>)
        requires
            old(self).wf(),
        ensures
            final(self).wf(),
            old(self)@.arena.evolves_to(final(self)@.arena),
            (final(self)@, action) == old(self)@.resume(event),
    {
        let mut phase = Phase::Idle;
        std::mem::swap(&mut self.phase, &mut phase);
        match phase {
            Phase::Idle => Action::Done(
                Err(Failure { error: RuntimeError::OutOfTurn, request: None }),
            ),
            Phase::AwaitingGuest(call) => match event {
                Event::Returned(guest) => {
                    self.phase = Phase::Reclaiming(call, guest);
                    Action::PostReturn(call)
                },
                Event::Trapped(message) => self.reclaim(call, Err(RuntimeError::EngineTrap(message))),
                _ => self.reclaim(call, Err(RuntimeError::OutOfTurn)),
            },
            Phase::Reclaiming(call, guest) => {
                let verdict = match event {
                    Event::CleanedUp => match guest {
                        Ok(()) => Ok(()),
                        Err(message) => Err(RuntimeError::Plugin(message)),
                    },
                    Event::CleanupFailed(message) => Err(RuntimeError::EngineTrap(message)),
                    _ => Err(RuntimeError::OutOfTurn),
                };
                self.reclaim(call, verdict)
            },
        }
    }

    /// Takes the request of `call` out of the arena and ends the call.
    fn reclaim(&mut self, call: Call, verdict: Result<(), RuntimeError>) -> (action: Action<R>)
        requires
            old(self).wf(),
            old(self)@.phase is Idle,
        ensures
            final(self).wf(),
            final(self)@ == old(self)@.reclaimed(call),
            action == Action::Done(old(self)@.settle(call, verdict)),
    {
        match self.states.requests.remove(call.handle) {
            Err(_) => Action::Done(Err(Failure { error: RuntimeError::Internal, request: None })),
            Ok(request) => match verdict {
                Ok(()) => Action::Done(Ok(request)),
                Err(error) => Action::Done(Err(Failure { error, request: Some(request) })),
            },
        }
    }
}

/// A request that no plugin touches comes back as it went in: when the plugin
/// returns its success marker and the cleanup is done, the call completes
/// with the very request that was dispatched, and the arena holds what it
/// held before the call.
pub proof fn lemma_untouched_request_comes_back<R>(runtime: RuntimeView<R>, call: Call, request: R)
    requires
        runtime.wf(),
        runtime.phase is Idle,
        !runtime.arena.minted.contains(call.handle.rep),
    ensures
        ({
            let awaiting = runtime.dispatched(call, request);
            let returned = awaiting.resume(Event::Returned(Ok(())));
            let cleaned = returned.0.resume(Event::CleanedUp);
            &&& returned.1 == Action::<R>::PostReturn(call)
            &&& cleaned.1 == Action::Done(Ok::<R, Failure<R>>(request))
            &&& cleaned.0.phase is Idle
            &&& cleaned.0.arena.live == runtime.arena.live
            &&& cleaned.0.instances == runtime.instances
        }),
{
    let awaiting = runtime.dispatched(call, request);
    let returned = awaiting.resume(Event::Returned(Ok(())));
    let cleaned = returned.0.resume(Event::CleanedUp);
    assert(cleaned.0.arena.live =~= runtime.arena.live);
}

/// Every request that was dispatched is reclaimed when its call ends,
/// whatever the engine reports: a step either asks for the cleanup and leaves
/// the arena alone, or ends the call, and then the runtime is idle and the
/// call's handle is retired for good. A request that was still in the arena
/// is handed out with the outcome, so none is lost.
pub proof fn lemma_every_call_reclaims<R>(runtime: RuntimeView<R>, event: Event)
    requires
        runtime.wf(),
        !(runtime.phase is Idle),
    ensures
        ({
            let call = runtime.call_in_flight()->Some_0;
            let step = runtime.resume(event);
            &&& step.0.wf()
            &&& runtime.arena.evolves_to(step.0.arena)
            &&& step.1 is PostReturn ==> {
                &&& runtime.phase is AwaitingGuest
                &&& event is Returned
                &&& step.0.phase is Reclaiming
                &&& step.0.arena == runtime.arena
            }
            &&& !(step.1 is PostReturn) ==> {
                &&& step.1 is Done
                &&& step.0.phase is Idle
                &&& !step.0.arena.is_live(call.handle)
                &&& step.0.arena.live == runtime.arena.live.remove(call.handle.rep)
                &&& runtime.arena.is_live(call.handle) ==> {
                    let request = runtime.arena.live[call.handle.rep];
                    match step.1->Done_0 {
                        Ok(back) => back == request,
                        Err(failure) => failure.request == Some(request),
                    }
                }
            }
        }),
{
}

/// A call completes only when the plugin returned its success marker and the
/// cleanup was done; the plugin's own error comes out as `Plugin`, and a trap
/// or a failed cleanup as `EngineTrap`.
pub proof fn lemma_outcome_names_its_cause<R>(runtime: RuntimeView<R>, event: Event)
    requires
        runtime.wf(),
    ensures
        match runtime.resume(event).1 {
            Action::Done(Ok(_)) => {
                &&& runtime.phase matches Phase::Reclaiming(_, guest)
                &&& guest is Ok
                &&& event is CleanedUp
            },
            Action::Done(Err(failure)) => match failure.error {
                RuntimeError::Plugin(message) => {
                    &&& runtime.phase matches Phase::Reclaiming(_, guest)
                    &&& guest == Err::<(), String>(message)
                    &&& event is CleanedUp
                },
                RuntimeError::EngineTrap(message) => {
                    ||| runtime.phase is AwaitingGuest && event == Event::Trapped(message)
                    ||| runtime.phase is Reclaiming && event == Event::CleanupFailed(message)
                },
                RuntimeError::Internal => true,
                RuntimeError::OutOfTurn => true,
                _ => false,
            },
            _ => true,
        },
{
}

} // verus!
