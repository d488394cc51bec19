//! The request arena: the only place where a request lives while a plugin
//! works on it.
//!
//! A request moves in with `insert`, which answers with a freshly minted
//! handle, and moves out again with `remove`. Handles are minted by the
//! engine's resource table. The arena never gives a slot of that table back,
//! so a handle that has been used once is never minted again.

use vstd::prelude::*;
use std::collections::HashMap;
use wasmtime::component::{ResourceTable, ResourceTableError};

verus! {

broadcast use vstd::std_specs::hash::group_hash_axioms;

#[verifier::external_type_specification]
#[verifier::external_body]
pub struct ExResourceTable(wasmtime::component::ResourceTable);

#[verifier::external_type_specification]
#[verifier::external_body]
pub struct ExResourceTableError(wasmtime::component::ResourceTableError);

/// The indices of a resource table that hold an entry.
pub uninterp spec fn table_slots(table: ResourceTable) -> Set<u32>;

/// `wasmtime::component::ResourceTable::new`: a table without entries.
#[verifier::external_body]
fn new_table() -> (table: ResourceTable)
    ensures
        table_slots(table) == Set::<u32>::empty(),
{
    ResourceTable::new()
}

/// `wasmtime::component::ResourceTable::push`, with the unit value as the
/// entry, followed by `Resource::rep` on what it returns.
///
/// The table puts the entry at an index that held none, either one that was
/// given back earlier or the one past its end, and answers with that index.
/// It refuses only when every index that fits in 32 bits holds an entry, and
/// then it changes nothing.
#[verifier::external_body]
fn mint_slot(table: &mut ResourceTable) -> (slot: Result<u32, ResourceTableError>)
    ensures
        table_slots(*final(table)).finite() == table_slots(*old(table)).finite(),
        slot is Ok <==> table_slots(*old(table)).len() <= u32::MAX,
        match slot {
            Ok(rep) => {
                &&& !table_slots(*old(table)).contains(rep)
                &&& table_slots(*final(table)) == table_slots(*old(table)).insert(rep)
            },
            Err(_) => table_slots(*final(table)) == table_slots(*old(table)),
        },
{
    table.push(()).map(|resource| resource.rep())
}

/// `std::collections::HashMap::get_mut`: a mutable borrow of the value under
/// `rep`, if there is one. Whatever is written through the borrow is what the
/// map holds under `rep` afterwards; nothing else changes.
#[verifier::external_body]
fn slot_mut<R>(requests: &mut HashMap<u32, R>, rep: u32) -> (slot: Option<&mut R>)
    ensures
        match slot {
            Some(request) => {
                &&& old(requests)@.contains_key(rep)
                &&& *request == old(requests)@[rep]
                &&& final(requests)@ == old(requests)@.insert(rep, *final(request))
            },
            None => !old(requests)@.contains_key(rep) && final(requests)@ == old(requests)@,
        },
{
    requests.get_mut(&rep)
}

/// An opaque capability token for one request in the arena. The integer in
/// it says nothing about the request and is no address.
#[derive(Clone, Copy, Debug, PartialEq, Eq, Structural)]
pub struct RequestHandle {
    pub rep: u32,
}

/// Why the arena cannot answer for a handle.
#[derive(Clone, Copy, Debug, PartialEq, Eq, Structural)]
pub enum HandleError {
    /// The handle was never minted, or its request has been removed.
    Unknown,
}

/// The arena has no handle left to mint; the request comes back unharmed.
#[derive(Debug)]
pub struct ArenaFull<R> {
    pub request: R,
}

/// The arena as the contracts see it.
pub struct ArenaView<R> {
    /// The requests that are in the arena now, by the integer of their handle.
    pub live: Map<u32, R>,
    /// Every handle integer that was ever minted.
    pub minted: Set<u32>,
}

impl<R> ArenaView<R> {
    /// Every live handle has been minted, and finitely many were.
    pub open spec fn wf(self) -> bool {
        &&& self.minted.finite()
        &&& forall|rep: u32| self.live.contains_key(rep) ==> self.minted.contains(rep)
    }

    pub open spec fn empty() -> Self {
        ArenaView { live: Map::empty(), minted: Set::empty() }
    }

    pub open spec fn is_live(self, handle: RequestHandle) -> bool {
        self.live.contains_key(handle.rep)
    }

    /// A handle that was minted and whose request is gone.
    pub open spec fn is_retired(self, handle: RequestHandle) -> bool {
        self.minted.contains(handle.rep) && !self.live.contains_key(handle.rep)
    }

    /// A handle is left to mint.
    pub open spec fn has_room(self) -> bool {
        self.minted.len() <= u32::MAX
    }

    pub open spec fn lookup(self, handle: RequestHandle) -> Result<R, HandleError> {
        if self.is_live(handle) {
            Ok(self.live[handle.rep])
        } else {
            Err(HandleError::Unknown)
        }
    }

    /// The arena after `request` moved in under the new handle `handle`.
    pub open spec fn inserted(self, handle: RequestHandle, request: R) -> Self {
        ArenaView {
            live: self.live.insert(handle.rep, request),
            minted: self.minted.insert(handle.rep),
        }
    }

    /// The arena after the request under `handle` became `request`.
    pub open spec fn updated(self, handle: RequestHandle, request: R) -> Self {
        ArenaView { live: self.live.insert(handle.rep, request), minted: self.minted }
    }

    /// The arena after the request under `handle` moved out.
    pub open spec fn removed(self, handle: RequestHandle) -> Self {
        ArenaView { live: self.live.remove(handle.rep), minted: self.minted }
    }

    /// What may become of an arena over time: handles are minted and never
    /// forgotten, and a handle that was minted and is not live stays so.
    pub open spec fn evolves_to(self, later: Self) -> bool {
        &&& forall|rep: u32| self.minted.contains(rep) ==> later.minted.contains(rep)
        &&& forall|rep: u32|
            self.minted.contains(rep) && later.live.contains_key(rep) ==> self.live.contains_key(
                rep,
            )
    }
}

/// Owns the requests of the calls in flight, each under its handle.
pub struct RequestArena<R> {
    table: ResourceTable,
    requests: HashMap<u32, R>,
}

impl<R> View for RequestArena<R> {
    type V = ArenaView<R>;

    closed spec fn view(&self) -> ArenaView<R> {
        ArenaView { live: self.requests@, minted: table_slots(self.table) }
    }
}

impl<R> RequestArena<R> {
    pub open spec fn wf(&self) -> bool {
        self@.wf()
    }

    pub fn new() -> (arena: RequestArena<R>)
        ensures
            arena.wf(),
            arena@ == ArenaView::<R>::empty(),
    {
        RequestArena { table: new_table(), requests: HashMap::new() }
    }

    /// Takes ownership of `request` and answers with a handle that was never
    /// minted before. Fails only when no handle is left, and then hands the
    /// request back.
    pub fn insert(&mut self, request: R) -> (minted: Result<RequestHandle, ArenaFull<R>>)
        requires
            old(self).wf(),
        ensures
            final(self).wf(),
            minted is Ok <==> old(self)@.has_room(),
            match minted {
                Ok(handle) => {
                    &&& !old(self)@.minted.contains(handle.rep)
                    &&& final(self)@ == old(self)@.inserted(handle, request)
                },
                Err(full) => full.request == request && final(self)@ == old(self)@,
            },
    {
        match mint_slot(&mut self.table) {
            Ok(rep) => {
                self.requests.insert(rep, request);
                Ok(RequestHandle { rep })
            },
            Err(_) => Err(ArenaFull { request }),
        }
    }

    /// Whether `handle` names a request that is in the arena.
    pub fn contains(&self, handle: RequestHandle) -> (live: bool)
        ensures
            live == self@.is_live(handle),
    {
        self.requests.contains_key(&handle.rep)
    }

    pub fn get(&self, handle: RequestHandle) -> (found: Result<&R, HandleError>)
        ensures
            self@.lookup(handle) == match found {
                Ok(request) => Ok::<R, HandleError>(*request),
                Err(e) => Err(e),
            },
    {
        match self.requests.get(&handle.rep) {
            Some(request) => Ok(request),
            None => Err(HandleError::Unknown),
        }
    }

    /// A mutable borrow of the request under `handle`. What the borrower
    /// leaves in it is the request that the arena holds afterwards.
    pub fn get_mut(&mut self, handle: RequestHandle) -> (found: Result<&mut R, HandleError>)
        requires
            old(self).wf(),
        ensures
            final(self).wf(),
            match found {
                Ok(request) => {
                    &&& old(self)@.lookup(handle) == Ok::<R, HandleError>(*request)
                    &&& final(self)@ == old(self)@.updated(handle, *final(request))
                },
                Err(e) => old(self)@.lookup(handle) == Err::<R, HandleError>(e) && final(self)@ == old(
                    self,
                )@,
            },
    {
        match slot_mut(&mut self.requests, handle.rep) {
            Some(request) => Ok(request),
            None => Err(HandleError::Unknown),
        }
    }

    /// Gives the request under `handle` back to the caller. The handle is
    /// retired: it names nothing from now on.
    pub fn remove(&mut self, handle: RequestHandle) -> (taken: Result<R, HandleError>)
        requires
            old(self).wf(),
        ensures
            final(self).wf(),
            taken == old(self)@.lookup(handle),
            final(self)@ == old(self)@.removed(handle),
            taken is Ok ==> final(self)@.is_retired(handle),
    {
        match self.requests.remove(&handle.rep) {
            Some(request) => Ok(request),
            None => {
                assert(self.requests@ =~= old(self).requests@);
                Err(HandleError::Unknown)
            },
        }
    }
}

/// A request that moves in and straight out again comes back as it was, and
/// the arena holds what it held before.
pub proof fn lemma_round_trip<R>(arena: ArenaView<R>, handle: RequestHandle, request: R)
    requires
        arena.wf(),
        !arena.minted.contains(handle.rep),
    ensures
        arena.inserted(handle, request).wf(),
        arena.inserted(handle, request).lookup(handle) == Ok::<R, HandleError>(request),
        arena.inserted(handle, request).removed(handle).live == arena.live,
{
    assert(arena.inserted(handle, request).removed(handle).live =~= arena.live);
}

/// Once a request has been removed, its handle is retired, and no lookup
/// finds anything under it.
pub proof fn lemma_removed_handle_is_stale<R>(arena: ArenaView<R>, handle: RequestHandle)
    requires
        arena.wf(),
        arena.is_live(handle),
    ensures
        arena.removed(handle).wf(),
        arena.removed(handle).is_retired(handle),
        arena.removed(handle).lookup(handle) == Err::<R, HandleError>(HandleError::Unknown),
        arena.evolves_to(arena.removed(handle)),
{
}

/// A retired handle stays retired however the arena evolves: no later insert
/// mints it again.
pub proof fn lemma_retired_stays_retired<R>(
    arena: ArenaView<R>,
    later: ArenaView<R>,
    handle: RequestHandle,
)
    requires
        arena.is_retired(handle),
        arena.evolves_to(later),
    ensures
        later.is_retired(handle),
        later.lookup(handle) == Err::<R, HandleError>(HandleError::Unknown),
{
}

/// Each way in which the arena changes is a way in which it may evolve, and
/// evolving twice is evolving.
pub proof fn lemma_arena_evolves<R>(
    arena: ArenaView<R>,
    later: ArenaView<R>,
    last: ArenaView<R>,
    handle: RequestHandle,
    request: R,
)
    requires
        arena.wf(),
    ensures
        arena.evolves_to(arena),
        !arena.minted.contains(handle.rep) ==> arena.evolves_to(arena.inserted(handle, request)),
        arena.is_live(handle) ==> arena.evolves_to(arena.updated(handle, request)),
        arena.evolves_to(arena.removed(handle)),
        arena.evolves_to(later) && later.evolves_to(last) ==> arena.evolves_to(last),
{
}

} // verus!
