//! The instance registry and the protocol by which a plugin is loaded.
//!
//! Loading is the engine's work: it compiles, links and instantiates the
//! module and resolves exports by name. What is asked of the engine, in which
//! order, and what each failure means is decided here. The engine is driven
//! one action at a time and reports each outcome; a `Router` exists only for a
//! module that went through every step.

use vstd::prelude::*;

verus! {

/// An interface as the contracts see it.
pub struct InterfaceView {
    pub namespace: Seq<char>,
    pub operations: Seq<Seq<char>>,
}

/// The names of a list of operations as sequences of characters.
pub open spec fn operation_names(operations: Seq<String>) -> Seq<Seq<char>> {
    operations.map_values(|name: String| name@)
}

impl InterfaceView {
    pub open spec fn has_operation(self, name: Seq<char>) -> bool {
        self.operations.contains(name)
    }

    /// Whether `index` is the first place at which `name` stands among the
    /// operations.
    pub open spec fn is_position_of(self, index: int, name: Seq<char>) -> bool {
        &&& 0 <= index < self.operations.len()
        &&& self.operations[index] == name
        &&& forall|j: int| 0 <= j < index ==> self.operations[j] != name
    }
}

/// The versioned interface that a plugin has to export: a namespace and, in
/// it, one function for each named operation. Each of them takes one request
/// handle and answers with a success marker or an error message.
#[derive(Clone, Debug, PartialEq, Eq)]
pub struct Interface {
    pub namespace: String,
    pub operations: Vec<String>,
}

impl View for Interface {
    type V = InterfaceView;

    open spec fn view(&self) -> InterfaceView {
        InterfaceView { namespace: self.namespace@, operations: operation_names(self.operations@) }
    }
}

impl Interface {
    pub fn new(namespace: String, operations: Vec<String>) -> (interface: Interface)
        ensures
            interface@ == (InterfaceView {
                namespace: namespace@,
                operations: operation_names(operations@),
            }),
    {
        Interface { namespace, operations }
    }

    /// The router interface with the single operation `handle`.
    pub fn crossroads() -> (interface: Interface)
        ensures
            interface@.namespace == "wit:crossroads/router@0.1.0"@,
            interface@.operations == seq!["handle"@],
    {
        let mut operations: Vec<String> = Vec::new();
        operations.push("handle".to_owned());
        let interface = Interface { namespace: "wit:crossroads/router@0.1.0".to_owned(), operations };
        assert(interface@.operations =~= seq!["handle"@]);
        interface
    }

    /// The router interface with one operation for requests and one for
    /// responses.
    pub fn rama_component() -> (interface: Interface)
        ensures
            interface@.namespace == "rama:component/router@0.1.0"@,
            interface@.operations == seq!["handle-request"@, "handle-response"@],
    {
        let mut operations: Vec<String> = Vec::new();
        operations.push("handle-request".to_owned());
        operations.push("handle-response".to_owned());
        let interface = Interface { namespace: "rama:component/router@0.1.0".to_owned(), operations };
        assert(interface@.operations =~= seq!["handle-request"@, "handle-response"@]);
        interface
    }
}

/// Why a module did not become a plugin instance.
#[derive(Clone, Copy, Debug, PartialEq, Eq, Structural)]
pub enum LoadError {
    /// The module could not be compiled, linked or instantiated.
    Malformed,
    /// The module does not export the interface's namespace.
    MissingNamespace,
    /// The namespace lacks the operation with this index in the interface,
    /// or exports it with another signature.
    MissingOperation(usize),
    /// No instance id is left.
    RegistryFull,
}

/// What the engine is asked to do next for a module that is being loaded.
#[derive(Clone, Copy, Debug, PartialEq, Eq, Structural)]
pub enum LoadAction {
    /// Compile the module, link the capability surface into it and
    /// instantiate it.
    Instantiate,
    /// Resolve the export that carries the interface's namespace.
    ResolveNamespace,
    /// Resolve, under the namespace, the operation with this index, and check
    /// its signature.
    ResolveOperation(usize),
}

/// The resolved entry points of one plugin instance: the operations that the
/// engine found under the interface's namespace, in the interface's order.
/// It does not change once it exists.
#[derive(Debug)]
pub struct Router {
    namespace: String,
    operations: Vec<String>,
}

impl View for Router {
    type V = InterfaceView;

    closed spec fn view(&self) -> InterfaceView {
        InterfaceView { namespace: self.namespace@, operations: operation_names(self.operations@) }
    }
}

impl Router {
    pub fn namespace(&self) -> (namespace: &String)
        ensures
            namespace@ == self@.namespace,
    {
        &self.namespace
    }

    pub fn operation_count(&self) -> (count: usize)
        ensures
            count == self@.operations.len(),
    {
        self.operations.len()
    }

    pub fn operation_name(&self, index: usize) -> (name: Option<&String>)
        ensures
            name is Some <==> index < self@.operations.len(),
            name matches Some(n) ==> n@ == self@.operations[index as int],
    {
        if index < self.operations.len() {
            Some(&self.operations[index])
        } else {
            None
        }
    }

    /// The first index at which an operation called `name` stands.
    pub fn operation_index(&self, name: &str) -> (found: Option<usize>)
        ensures
            found is Some <==> self@.has_operation(name@),
            found matches Some(index) ==> self@.is_position_of(index as int, name@),
    {
        let wanted = name.to_owned();
        let mut i: usize = 0;
        while i < self.operations.len()
            invariant
                i <= self.operations.len(),
                wanted@ == name@,
                forall|j: int| 0 <= j < i ==> self@.operations[j] != name@,
            decreases self.operations.len() - i,
        {
            if self.operations[i] == wanted {
                assert(self@.operations[i as int] == name@);
                return Some(i);
            }
            i += 1;
        }
        assert(!self@.operations.contains(name@));
        None
    }
}

/// No plugin instance has the id that was asked for.
#[derive(Clone, Copy, Debug, PartialEq, Eq, Structural)]
pub struct NotFoundError {
    pub id: usize,
}

/// The plugin instances as the contracts see them.
pub open spec fn router_views(routers: Seq<Router>) -> Seq<InterfaceView> {
    routers.map_values(|router: Router| router@)
}

/// Whether `id` has been assigned: the ids in use are 1 up to the number of
/// instances.
pub open spec fn is_assigned(instances: Seq<InterfaceView>, id: usize) -> bool {
    1 <= id <= instances.len()
}

/// Maps each id that was assigned to the plugin instance that got it. Ids are
/// assigned in order, from 1 on, and instances are only ever added.
pub struct InstanceRegistry {
    routers: Vec<Router>,
}

impl View for InstanceRegistry {
    type V = Seq<InterfaceView>;

    /// The instances in the order in which they were registered. The
    /// instance with the id `i` stands at `i - 1`.
    closed spec fn view(&self) -> Seq<InterfaceView> {
        router_views(self.routers@)
    }
}

impl InstanceRegistry {
    pub fn new() -> (registry: InstanceRegistry)
        ensures
            registry@ == Seq::<InterfaceView>::empty(),
    {
        let registry = InstanceRegistry { routers: Vec::new() };
        assert(registry@ =~= Seq::<InterfaceView>::empty());
        registry
    }

    /// The number of instances, which is the greatest id in use.
    pub fn len(&self) -> (count: usize)
        ensures
            count == self@.len(),
    {
        self.routers.len()
    }

    /// Registers a loaded plugin under the next id: one more than the
    /// greatest id in use, and 1 for the first. Fails only when no id is
    /// left, and then changes nothing.
    pub fn register(&mut self, router: Router) -> (id: Result<usize, LoadError>)
        ensures
            id is Ok <==> old(self)@.len() < usize::MAX,
            match id {
                Ok(id) => {
                    &&& id == old(self)@.len() + 1
                    &&& !is_assigned(old(self)@, id)
                    &&& final(self)@ == old(self)@.push(router@)
                },
                Err(e) => e == LoadError::RegistryFull && final(self)@ == old(self)@,
            },
    {
        let count = self.routers.len();
        if count == usize::MAX {
            return Err(LoadError::RegistryFull);
        }
        self.routers.push(router);
        assert(router_views(self.routers@) =~= router_views(old(self).routers@).push(router@));
        Ok(count + 1)
    }

    /// The plugin instance with the id `id`.
    pub fn lookup(&self, id: usize) -> (found: Result<&Router, NotFoundError>)
        ensures
            match found {
                Ok(router) => is_assigned(self@, id) && router@ == self@[id - 1],
                Err(e) => !is_assigned(self@, id) && e.id == id,
            },
    {
        if 1 <= id && id <= self.routers.len() {
            Ok(&self.routers[id - 1])
        } else {
            Err(NotFoundError { id })
        }
    }
}

/// The number of instances is the greatest id in use, so the id that comes
/// next is one more than the greatest, and was never assigned.
pub proof fn lemma_next_id_is_past_every_id(instances: Seq<InterfaceView>)
    ensures
        forall|id: usize| is_assigned(instances, id) ==> id <= instances.len(),
        0 < instances.len() <= usize::MAX ==> is_assigned(instances, instances.len() as usize),
        instances.len() < usize::MAX ==> !is_assigned(instances, (instances.len() + 1) as usize),
        forall|id: usize, next: InterfaceView|
            is_assigned(instances, id) ==> is_assigned(instances.push(next), id)
                && instances.push(next)[id - 1] == instances[id - 1],
{
}

/// Where a module that is being loaded has got to.
pub enum LoadStep {
    /// The engine has more to do; the loader says what.
    Pending(Loader),
    /// Every step succeeded.
    Loaded(Router),
    Failed(LoadError),
}

/// What becomes of a load when the engine reports on the pending action.
pub enum LoadStepView {
    Pending(LoadAction),
    Loaded,
    Failed(LoadError),
}

/// What it means that an action of a load failed: a module that cannot be
/// instantiated is malformed, and an export that cannot be resolved is
/// missing.
pub open spec fn failure_of(pending: LoadAction) -> LoadError {
    match pending {
        LoadAction::Instantiate => LoadError::Malformed,
        LoadAction::ResolveNamespace => LoadError::MissingNamespace,
        LoadAction::ResolveOperation(index) => LoadError::MissingOperation(index),
    }
}

/// The load protocol. The engine instantiates the module, then resolves the
/// namespace, then each operation in turn. The first failure ends the load.
pub open spec fn load_step(interface: InterfaceView, pending: LoadAction, succeeded: bool) -> LoadStepView {
    if !succeeded {
        LoadStepView::Failed(failure_of(pending))
    } else {
        match pending {
            LoadAction::Instantiate => LoadStepView::Pending(LoadAction::ResolveNamespace),
            LoadAction::ResolveNamespace => if interface.operations.len() == 0 {
                LoadStepView::Loaded
            } else {
                LoadStepView::Pending(LoadAction::ResolveOperation(0))
            },
            LoadAction::ResolveOperation(index) => if index + 1 < interface.operations.len() {
                LoadStepView::Pending(LoadAction::ResolveOperation((index + 1) as usize))
            } else {
                LoadStepView::Loaded
            },
        }
    }
}

/// A module on its way to becoming a plugin instance.
#[derive(Debug)]
pub struct Loader {
    interface: Interface,
    pending: LoadAction,
}

impl Loader {
    pub closed spec fn interface(&self) -> InterfaceView {
        self.interface@
    }

    pub closed spec fn pending(&self) -> LoadAction {
        self.pending
    }

    /// An operation that is being resolved is one of the interface.
    pub open spec fn wf(&self) -> bool {
        self.pending() matches LoadAction::ResolveOperation(index) ==> index
            < self.interface().operations.len()
    }

    /// Starts to load a module against `interface`.
    pub fn new(interface: Interface) -> (loader: Loader)
        ensures
            loader.wf(),
            loader.interface() == interface@,
            loader.pending() == LoadAction::Instantiate,
    {
        Loader { interface, pending: LoadAction::Instantiate }
    }

    /// What the engine is asked to do now.
    pub fn action(&self) -> (action: LoadAction)
        ensures
            action == self.pending(),
    {
        self.pending
    }

    /// The namespace that the engine is to resolve.
    pub fn namespace(&self) -> (namespace: &String)
        ensures
            namespace@ == self.interface().namespace,
    {
        &self.interface.namespace
    }

    /// The name of the operation with this index, for the engine to resolve.
    pub fn operation_name(&self, index: usize) -> (name: Option<&String>)
        ensures
            name is Some <==> index < self.interface().operations.len(),
            name matches Some(n) ==> n@ == self.interface().operations[index as int],
    {
        if index < self.interface.operations.len() {
            Some(&self.interface.operations[index])
        } else {
            None
        }
    }

    /// Takes the engine's report on the pending action and says how the load
    /// goes on.
    pub fn advance(self, succeeded: bool) -> (step: LoadStep)
        requires
            self.wf(),
        ensures
            match step {
                LoadStep::Pending(loader) => {
                    &&& loader.wf()
                    &&& loader.interface() == self.interface()
                    &&& load_step(self.interface(), self.pending(), succeeded)
                        == LoadStepView::Pending(loader.pending())
                },
                LoadStep::Loaded(router) => {
                    &&& router@ == self.interface()
                    &&& load_step(self.interface(), self.pending(), succeeded) == LoadStepView::Loaded
                },
                LoadStep::Failed(error) => load_step(self.interface(), self.pending(), succeeded)
                    == LoadStepView::Failed(error),
            },
    {
        let Loader { interface, pending } = self;
        match pending {
            LoadAction::Instantiate => {
                if succeeded {
                    LoadStep::Pending(Loader { interface, pending: LoadAction::ResolveNamespace })
                } else {
                    LoadStep::Failed(LoadError::Malformed)
                }
            },
            LoadAction::ResolveNamespace => {
                if !succeeded {
                    LoadStep::Failed(LoadError::MissingNamespace)
                } else if interface.operations.len() == 0 {
                    LoadStep::Loaded(
                        Router { namespace: interface.namespace, operations: interface.operations },
                    )
                } else {
                    LoadStep::Pending(Loader { interface, pending: LoadAction::ResolveOperation(0) })
                }
            },
            LoadAction::ResolveOperation(index) => {
                let count = interface.operations.len();
                if !succeeded {
                    LoadStep::Failed(LoadError::MissingOperation(index))
                } else if index + 1 < count {
                    LoadStep::Pending(
                        Loader { interface, pending: LoadAction::ResolveOperation(index + 1) },
                    )
                } else {
                    LoadStep::Loaded(
                        Router { namespace: interface.namespace, operations: interface.operations },
                    )
                }
            },
        }
    }
}

/// What becomes of a load on which the engine reports `reports`, one report
/// for each action in turn, from the action `pending` on. A load that has
/// ended takes no further report.
pub open spec fn load_run(interface: InterfaceView, pending: LoadAction, reports: Seq<bool>) -> LoadStepView
    decreases reports.len(),
{
    if reports.len() == 0 {
        LoadStepView::Pending(pending)
    } else {
        match load_step(interface, pending, reports[0]) {
            LoadStepView::Pending(next) => load_run(interface, next, reports.drop_first()),
            ended => ended,
        }
    }
}

/// The number of actions that a load still takes from `pending` on if each
/// of them succeeds.
pub open spec fn steps_left(interface: InterfaceView, pending: LoadAction) -> int {
    match pending {
        LoadAction::Instantiate => interface.operations.len() as int + 2,
        LoadAction::ResolveNamespace => interface.operations.len() as int + 1,
        LoadAction::ResolveOperation(index) => interface.operations.len() - index,
    }
}

/// A module is loaded exactly when every step succeeds: the instantiation,
/// the namespace, and each operation of the interface. While every report so
/// far is good and steps are left, the load goes on.
pub proof fn lemma_load_succeeds_when_every_step_does(
    interface: InterfaceView,
    pending: LoadAction,
    reports: Seq<bool>,
)
    requires
        pending matches LoadAction::ResolveOperation(index) ==> index < interface.operations.len(),
        interface.operations.len() < usize::MAX,
        forall|i: int| 0 <= i < reports.len() ==> reports[i],
        reports.len() <= steps_left(interface, pending),
    ensures
        reports.len() == steps_left(interface, pending) ==> load_run(interface, pending, reports)
            == LoadStepView::Loaded,
        reports.len() < steps_left(interface, pending) ==> load_run(interface, pending, reports)
            is Pending,
    decreases reports.len(),
{
    if reports.len() > 0 {
        match load_step(interface, pending, reports[0]) {
            LoadStepView::Pending(next) => {
                lemma_load_succeeds_when_every_step_does(interface, next, reports.drop_first());
            },
            _ => {},
        }
    }
}

/// The first step that fails ends the load, and the error is that of the
/// action that was pending when it failed.
pub proof fn lemma_first_failure_ends_the_load(
    interface: InterfaceView,
    pending: LoadAction,
    reports: Seq<bool>,
    failed: int,
)
    requires
        pending matches LoadAction::ResolveOperation(index) ==> index < interface.operations.len(),
        interface.operations.len() < usize::MAX,
        0 <= failed < reports.len(),
        failed < steps_left(interface, pending),
        !reports[failed],
        forall|i: int| 0 <= i < failed ==> reports[i],
    ensures
        load_run(interface, pending, reports.take(failed)) is Pending,
        load_run(interface, pending, reports) == LoadStepView::Failed(
            failure_of(load_run(interface, pending, reports.take(failed))->Pending_0),
        ),
    decreases reports.len(),
{
    if failed == 0 {
        assert(reports.take(0) =~= Seq::<bool>::empty());
    } else {
        match load_step(interface, pending, reports[0]) {
            LoadStepView::Pending(next) => {
                assert(reports.take(failed).drop_first() =~= reports.drop_first().take(failed - 1));
                assert(reports.take(failed)[0] == reports[0]);
                lemma_first_failure_ends_the_load(interface, next, reports.drop_first(), failed - 1);
            },
            _ => {},
        }
    }
}

} // verus!
