//! The host capability surface: the operations that a plugin may call on the
//! request behind its handle.
//!
//! Every operation looks its handle up anew before anything else, so a stale
//! handle is answered as unknown whatever comes with it. A write then judges
//! its arguments, and one that fails either test leaves every request as it
//! was.

use vstd::prelude::*;
use crate::arena::{ArenaView, HandleError, RequestArena, RequestHandle};
use crate::grammar::{check_header, check_uri, header_verdict, uri_verdict, ValidationError};
use crate::request::{HostRequestState, RequestView};

verus! {

/// Why a call on the capability surface failed. The plugin that made the call
/// sees the failure as the result of that call; the invocation goes on.
#[derive(Clone, Copy, Debug, PartialEq, Eq, Structural)]
pub enum SurfaceError {
    Handle(HandleError),
    Validation(ValidationError),
}

impl SurfaceError {
    /// The words in which a plugin is told of the failure.
    pub open spec fn message_text(self) -> Seq<char> {
        match self {
            SurfaceError::Handle(HandleError::Unknown) => "Request not in resource table"@,
            SurfaceError::Validation(ValidationError::InvalidHeaderName) => "invalid HTTP header name"@,
            SurfaceError::Validation(ValidationError::InvalidHeaderValue) => "failed to parse header value"@,
            SurfaceError::Validation(ValidationError::InvalidUri) => "Error assigning uri: invalid uri"@,
        }
    }

    pub fn message(&self) -> (text: String)
        ensures
            text@ == self.message_text(),
    {
        match self {
            SurfaceError::Handle(HandleError::Unknown) => "Request not in resource table".to_owned(),
            SurfaceError::Validation(ValidationError::InvalidHeaderName) => "invalid HTTP header name".to_owned(),
            SurfaceError::Validation(ValidationError::InvalidHeaderValue) => "failed to parse header value".to_owned(),
            SurfaceError::Validation(ValidationError::InvalidUri) => "Error assigning uri: invalid uri".to_owned(),
        }
    }
}

/// The requests of an arena by what they hold.
pub open spec fn request_views(arena: ArenaView<HostRequestState>) -> Map<u32, RequestView> {
    arena.live.map_values(|request: HostRequestState| request@)
}

/// What `headers` answers.
pub open spec fn headers_outcome(requests: Map<u32, RequestView>, handle: RequestHandle) -> Result<
    Seq<(Seq<char>, Seq<char>)>,
    SurfaceError,
> {
    if requests.contains_key(handle.rep) {
        Ok(requests[handle.rep].headers)
    } else {
        Err(SurfaceError::Handle(HandleError::Unknown))
    }
}

/// What `uri` answers.
pub open spec fn uri_outcome(requests: Map<u32, RequestView>, handle: RequestHandle) -> Result<
    Seq<char>,
    SurfaceError,
> {
    if requests.contains_key(handle.rep) {
        Ok(requests[handle.rep].uri)
    } else {
        Err(SurfaceError::Handle(HandleError::Unknown))
    }
}

/// What `set_header` answers.
pub open spec fn set_header_outcome(
    requests: Map<u32, RequestView>,
    handle: RequestHandle,
    name: Seq<char>,
    value: Seq<char>,
) -> Result<(), SurfaceError> {
    if !requests.contains_key(handle.rep) {
        Err(SurfaceError::Handle(HandleError::Unknown))
    } else {
        match header_verdict(name, value) {
            Err(e) => Err(SurfaceError::Validation(e)),
            Ok(()) => Ok(()),
        }
    }
}

/// The requests after `set_header`.
pub open spec fn after_set_header(
    requests: Map<u32, RequestView>,
    handle: RequestHandle,
    name: Seq<char>,
    value: Seq<char>,
) -> Map<u32, RequestView> {
    if set_header_outcome(requests, handle, name, value) is Ok {
        requests.insert(handle.rep, requests[handle.rep].with_header(name, value))
    } else {
        requests
    }
}

/// What `set_uri` answers.
pub open spec fn set_uri_outcome(
    requests: Map<u32, RequestView>,
    handle: RequestHandle,
    text: Seq<char>,
) -> Result<(), SurfaceError> {
    if !requests.contains_key(handle.rep) {
        Err(SurfaceError::Handle(HandleError::Unknown))
    } else {
        match uri_verdict(text) {
            Err(e) => Err(SurfaceError::Validation(e)),
            Ok(_) => Ok(()),
        }
    }
}

/// The requests after `set_uri`.
pub open spec fn after_set_uri(
    requests: Map<u32, RequestView>,
    handle: RequestHandle,
    text: Seq<char>,
) -> Map<u32, RequestView> {
    if set_uri_outcome(requests, handle, text) is Ok {
        requests.insert(handle.rep, requests[handle.rep].with_uri(uri_verdict(text)->Ok_0))
    } else {
        requests
    }
}

/// The state of the host that a plugin's calls act on: the arena of the
/// requests that are handed out.
pub struct ComponentRunStates<R> {
    pub requests: RequestArena<R>,
}

impl<R> View for ComponentRunStates<R> {
    type V = ArenaView<R>;

    open spec fn view(&self) -> ArenaView<R> {
        self.requests@
    }
}

impl<R> ComponentRunStates<R> {
    pub open spec fn wf(&self) -> bool {
        self.requests.wf()
    }

    pub fn new() -> (states: ComponentRunStates<R>)
        ensures
            states.wf(),
            states@ == ArenaView::<R>::empty(),
    {
        ComponentRunStates { requests: RequestArena::new() }
    }

    /// The engine's notice that a plugin has let go of its handle. The
    /// request stays where it is until the call is over and the pipeline
    /// takes it back.
    pub fn drop(&mut self, rep: RequestHandle)
        ensures
            *final(self) == *old(self),
    {
    }
}

impl ComponentRunStates<HostRequestState> {
    /// The requests that plugins can reach, by what they hold.
    pub open spec fn views(&self) -> Map<u32, RequestView> {
        request_views(self@)
    }

    /// A snapshot of the headers of the request behind `handle`, in order.
    pub fn headers(&self, handle: RequestHandle) -> (listed: Result<Vec<(String, String)>, SurfaceError>)
        ensures
            headers_outcome(self.views(), handle) == match listed {
                Ok(list) => Ok::<Seq<(Seq<char>, Seq<char>)>, SurfaceError>(
                    crate::request::header_views(list@),
                ),
                Err(e) => Err(e),
            },
    {
        match self.requests.get(handle) {
            Ok(request) => Ok(request.header_list()),
            Err(e) => Err(SurfaceError::Handle(e)),
        }
    }

    /// Sets a header of the request behind `handle`. An existing header of
    /// that name is replaced where it stands; a new one goes to the end.
    pub fn set_header(&mut self, handle: RequestHandle, key: String, value: String) -> (done: Result<
        (),
        SurfaceError,
    >)
        requires
            old(self).wf(),
        ensures
            final(self).wf(),
            done == set_header_outcome(old(self).views(), handle, key@, value@),
            final(self).views() == after_set_header(old(self).views(), handle, key@, value@),
            final(self)@.minted == old(self)@.minted,
            old(self)@.evolves_to(final(self)@),
    {
        if !self.requests.contains(handle) {
            return Err(SurfaceError::Handle(HandleError::Unknown));
        }
        let name_key = match check_header(key.as_str(), value.as_str()) {
            Ok(name_key) => name_key,
            Err(e) => {
                return Err(SurfaceError::Validation(e));
            },
        };
        match self.requests.get_mut(handle) {
            Ok(request) => {
                request.store_header(&name_key, key, value);
                assert(final(self).views() =~= after_set_header(
                    old(self).views(),
                    handle,
                    key@,
                    value@,
                ));
                Ok(())
            },
            Err(e) => Err(SurfaceError::Handle(e)),
        }
    }

    /// The target of the request behind `handle`, in its canonical text.
    pub fn uri(&self, handle: RequestHandle) -> (target: Result<String, SurfaceError>)
        ensures
            uri_outcome(self.views(), handle) == match target {
                Ok(text) => Ok::<Seq<char>, SurfaceError>(text@),
                Err(e) => Err(e),
            },
    {
        match self.requests.get(handle) {
            Ok(request) => Ok(request.uri.clone()),
            Err(e) => Err(SurfaceError::Handle(e)),
        }
    }

    /// Replaces the target of the request behind `handle` in one step.
    pub fn set_uri(&mut self, handle: RequestHandle, uri: String) -> (done: Result<(), SurfaceError>)
        requires
            old(self).wf(),
        ensures
            final(self).wf(),
            done == set_uri_outcome(old(self).views(), handle, uri@),
            final(self).views() == after_set_uri(old(self).views(), handle, uri@),
            final(self)@.minted == old(self)@.minted,
            old(self)@.evolves_to(final(self)@),
    {
        if !self.requests.contains(handle) {
            return Err(SurfaceError::Handle(HandleError::Unknown));
        }
        let canonical = match check_uri(uri.as_str()) {
            Ok(canonical) => canonical,
            Err(e) => {
                return Err(SurfaceError::Validation(e));
            },
        };
        match self.requests.get_mut(handle) {
            Ok(request) => {
                request.uri = canonical;
                assert(final(self).views() =~= after_set_uri(old(self).views(), handle, uri@));
                Ok(())
            },
            Err(e) => Err(SurfaceError::Handle(e)),
        }
    }
}

/// Once the request behind a handle has been removed, every call on the
/// surface with that handle fails as an unknown handle and changes nothing,
/// whatever its arguments, now and however the arena evolves afterwards.
pub proof fn lemma_stale_handle(
    arena: ArenaView<HostRequestState>,
    later: ArenaView<HostRequestState>,
    handle: RequestHandle,
    name: Seq<char>,
    value: Seq<char>,
    text: Seq<char>,
)
    requires
        arena.wf(),
        arena.is_live(handle),
        arena.removed(handle).evolves_to(later),
    ensures
        later.lookup(handle) == Err::<HostRequestState, HandleError>(HandleError::Unknown),
        headers_outcome(request_views(later), handle) == Err::<
            Seq<(Seq<char>, Seq<char>)>,
            SurfaceError,
        >(SurfaceError::Handle(HandleError::Unknown)),
        uri_outcome(request_views(later), handle) == Err::<Seq<char>, SurfaceError>(
            SurfaceError::Handle(HandleError::Unknown),
        ),
        set_header_outcome(
            request_views(later),
            handle,
            name,
            value,
        ) == Err::<(), SurfaceError>(SurfaceError::Handle(HandleError::Unknown)),
        set_uri_outcome(request_views(later), handle, text) == Err::<
            (),
            SurfaceError,
        >(SurfaceError::Handle(HandleError::Unknown)),
        after_set_header(request_views(later), handle, name, value) == request_views(later),
        after_set_uri(request_views(later), handle, text) == request_views(later),
{
    assert(arena.removed(handle).is_retired(handle));
    assert(later.is_retired(handle));
}

/// A write whose argument fails its grammar leaves every request as it was,
/// and a write to a request that is in the arena is answered with that
/// failure. The empty string is no header name, so no header can be set
/// under it.
pub proof fn lemma_invalid_write_changes_nothing(
    requests: Map<u32, RequestView>,
    handle: RequestHandle,
    name: Seq<char>,
    value: Seq<char>,
    text: Seq<char>,
)
    ensures
        header_verdict(name, value) is Err ==> after_set_header(requests, handle, name, value)
            == requests,
        uri_verdict(text) is Err ==> after_set_uri(requests, handle, text) == requests,
        requests.contains_key(handle.rep) ==> {
            &&& header_verdict(name, value) matches Err(e) ==> set_header_outcome(
                requests,
                handle,
                name,
                value,
            ) == Err::<(), SurfaceError>(SurfaceError::Validation(e))
            &&& uri_verdict(text) matches Err(e) ==> set_uri_outcome(requests, handle, text) == Err::<
                (),
                SurfaceError,
            >(SurfaceError::Validation(e))
            &&& set_header_outcome(requests, handle, Seq::<char>::empty(), value) == Err::<
                (),
                SurfaceError,
            >(SurfaceError::Validation(ValidationError::InvalidHeaderName))
        },
{
}

} // verus!
