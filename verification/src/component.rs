//! A plugin that routes by subdomain.
//!
//! The first label of the request's host names a tenant by its UUID. The
//! plugin copies that label into the header `UUID`, the rest of the host into
//! the header `HOST`, and rewrites the target so that its host is the rest.
//! It reaches the request only through its handle and the capability
//! surface.

use vstd::prelude::*;
use url::Url;
use uuid::Uuid;
use crate::arena::{HandleError, RequestHandle};
use crate::grammar::{header_verdict, uri_verdict};
use crate::request::{HostRequestState, RequestView};
use crate::surface::{ComponentRunStates, SurfaceError};

verus! {

/// The longest target, and the longest host, in characters, that the plugin
/// rewrites.
pub const MAX_TEXT: usize = 0x40_0000;

/// What parsing `text` as a URL gives: the URL's host, if it has one, or the
/// parser's words for why `text` is no URL.
pub uninterp spec fn url_host_outcome(text: Seq<char>) -> Result<Option<Seq<char>>, Seq<char>>;

/// What replacing the host of the URL `text` by `host` gives: the URL as a
/// string, or the parser's words for why it cannot be done.
pub uninterp spec fn url_with_host_outcome(text: Seq<char>, host: Seq<char>) -> Result<
    Seq<char>,
    Seq<char>,
>;

/// The parser's words for why `text` is no UUID, or `None` if it is one.
pub uninterp spec fn uuid_parse_failure(text: Seq<char>) -> Option<Seq<char>>;

/// `url::Url::parse`, followed by `Url::host_str` on the parsed URL, or by
/// the `Display` of the error.
#[verifier::external_body]
fn url_host(text: &str) -> (host: Result<Option<String>, String>)
    ensures
        url_host_outcome(text@) == match host {
            Ok(Some(h)) => Ok::<Option<Seq<char>>, Seq<char>>(Some(h@)),
            Ok(None) => Ok(None),
            Err(m) => Err(m@),
        },
{
    match Url::parse(text) {
        Ok(url) => Ok(url.host_str().map(|host| host.to_string())),
        Err(e) => Err(e.to_string()),
    }
}

/// `url::Url::parse`, followed by `Url::set_host` with `host` and by the
/// conversion of the URL into a `String`, or by the `Display` of the error
/// of either.
///
/// `set_host` keeps its offsets in 32 bits and gives up on a URL that does
/// not fit. The bound on the two texts keeps the URL far below that.
#[verifier::external_body]
fn url_with_host(text: &str, host: &str) -> (rewritten: Result<String, String>)
    requires
        text@.len() <= MAX_TEXT,
        host@.len() <= MAX_TEXT,
    ensures
        url_with_host_outcome(text@, host@) == match rewritten {
            Ok(url) => Ok::<Seq<char>, Seq<char>>(url@),
            Err(m) => Err(m@),
        },
{
    let mut url = Url::parse(text).map_err(|e| e.to_string())?;
    url.set_host(Some(host)).map_err(|e| e.to_string())?;
    Ok(url.into())
}

/// `uuid::Uuid::parse_str`, with the `Display` of its error.
#[verifier::external_body]
fn uuid_failure(text: &str) -> (failure: Option<String>)
    ensures
        uuid_parse_failure(text@) == match failure {
            Some(m) => Some(m@),
            None => None::<Seq<char>>,
        },
{
    Uuid::parse_str(text).err().map(|e| e.to_string())
}

/// Whether `at` is where the first label of `host` ends: at the first dot,
/// or at the end of a host without dots.
pub open spec fn is_first_dot(host: Seq<char>, at: int) -> bool {
    &&& 0 <= at <= host.len()
    &&& forall|j: int| 0 <= j < at ==> host[j] != '.'
    &&& at < host.len() ==> host[at] == '.'
}

pub open spec fn first_dot(host: Seq<char>) -> int {
    choose|at: int| is_first_dot(host, at)
}

/// The first label of a host.
pub open spec fn subdomain(host: Seq<char>) -> Seq<char> {
    host.take(first_dot(host))
}

/// What follows the first label and its dot; empty for a host of one label.
pub open spec fn parent_host(host: Seq<char>) -> Seq<char> {
    if first_dot(host) < host.len() {
        host.skip(first_dot(host) + 1)
    } else {
        Seq::empty()
    }
}

/// At most one position is where the first label ends.
pub proof fn lemma_first_dot_is_unique(host: Seq<char>, at: int)
    requires
        is_first_dot(host, at),
    ensures
        first_dot(host) == at,
{
    let chosen = first_dot(host);
    assert(is_first_dot(host, chosen));
    if chosen < at {
        assert(host[chosen] != '.');
    } else if at < chosen {
        assert(host[at] != '.');
    }
}

/// Splits a host into its first label and what follows the label's dot.
pub fn split_host(host: &str) -> (parts: (String, String))
    ensures
        parts.0@ == subdomain(host@),
        parts.1@ == parent_host(host@),
{
    let n = host.unicode_len();
    let mut at: usize = 0;
    while at < n && host.get_char(at) != '.'
        invariant
            at <= n,
            n == host@.len(),
            forall|j: int| 0 <= j < at ==> host@[j] != '.',
        decreases n - at,
    {
        at += 1;
    }
    proof {
        lemma_first_dot_is_unique(host@, at as int);
    }
    let label = host.substring_char(0, at).to_owned();
    assert(host@.subrange(0, at as int) =~= host@.take(at as int));
    if at < n {
        let rest = host.substring_char(at + 1, n).to_owned();
        assert(host@.subrange(at + 1, n as int) =~= host@.skip(at + 1));
        (label, rest)
    } else {
        (label, String::new())
    }
}

/// A request after the plugin worked on it, and what the plugin reports.
pub struct Routed {
    pub request: RequestView,
    pub verdict: Result<(), Seq<char>>,
}

/// The last step of the plugin: the target gets the parent host. A target or
/// a host of more than `MAX_TEXT` characters is turned down.
pub open spec fn route_target(request: RequestView, parent: Seq<char>) -> Routed {
    if request.uri.len() > MAX_TEXT || parent.len() > MAX_TEXT {
        Routed { request, verdict: Err("Invalid new host: text too long"@) }
    } else {
        match url_with_host_outcome(request.uri, parent) {
            Err(m) => Routed { request, verdict: Err("Invalid new host: "@ + m) },
            Ok(url) => match uri_verdict(url) {
                Err(e) => Routed {
                    request,
                    verdict: Err(SurfaceError::Validation(e).message_text()),
                },
                Ok(canonical) => Routed { request: request.with_uri(canonical), verdict: Ok(()) },
            },
        }
    }
}

/// The plugin's work on a request whose host is `host`. The headers are
/// written before the target is, and a step that fails leaves what the steps
/// before it have written.
pub open spec fn route_host(request: RequestView, host: Seq<char>) -> Routed {
    let label = subdomain(host);
    let parent = parent_host(host);
    match uuid_parse_failure(label) {
        Some(m) => Routed { request, verdict: Err("Invalid subdomainUUID: "@ + m) },
        None => match header_verdict("UUID"@, label) {
            Err(e) => Routed { request, verdict: Err(SurfaceError::Validation(e).message_text()) },
            Ok(()) => {
                let tagged = request.with_header("UUID"@, label);
                match header_verdict("HOST"@, parent) {
                    Err(e) => Routed {
                        request: tagged,
                        verdict: Err(SurfaceError::Validation(e).message_text()),
                    },
                    Ok(()) => route_target(tagged.with_header("HOST"@, parent), parent),
                }
            },
        },
    }
}

/// The plugin's work on a request. A request whose target is no URL, has no
/// host, or has a first label that is no UUID stays as it is.
pub open spec fn route(request: RequestView) -> Routed {
    match url_host_outcome(request.uri) {
        Err(m) => Routed { request, verdict: Err("Invalid URL: "@ + m) },
        Ok(None) => Routed { request, verdict: Err("Uri has no host found"@) },
        Ok(Some(host)) => route_host(request, host),
    }
}

/// The subdomain router.
pub struct Component;

impl Component {
    /// Routes the request behind `request` by the first label of its host.
    pub fn handle(states: &mut ComponentRunStates<HostRequestState>, request: RequestHandle) -> (verdict:
        Result<(), String>)
        requires
            old(states).wf(),
        ensures
            final(states).wf(),
            final(states)@.minted == old(states)@.minted,
            old(states)@.evolves_to(final(states)@),
            !old(states).views().contains_key(request.rep) ==> {
                &&& final(states).views() == old(states).views()
                &&& verdict matches Err(m)
                &&& m@ == SurfaceError::Handle(HandleError::Unknown).message_text()
            },
            old(states).views().contains_key(request.rep) ==> {
                let routed = route(old(states).views()[request.rep]);
                &&& final(states).views() == old(states).views().insert(request.rep, routed.request)
                &&& routed.verdict == match verdict {
                    Ok(()) => Ok::<(), Seq<char>>(()),
                    Err(m) => Err(m@),
                }
            },
    {
        let ghost before = states.views();
        let uri = match states.uri(request) {
            Ok(uri) => uri,
            Err(e) => {
                return Err(e.message());
            },
        };
        assert(before =~= before.insert(request.rep, before[request.rep]));
        let host = match url_host(uri.as_str()) {
            Err(m) => {
                return Err("Invalid URL: ".to_owned().concat(m.as_str()));
            },
            Ok(None) => {
                return Err("Uri has no host found".to_owned());
            },
            Ok(Some(host)) => host,
        };
        let (label, parent) = split_host(host.as_str());
        if let Some(m) = uuid_failure(label.as_str()) {
            return Err("Invalid subdomainUUID: ".to_owned().concat(m.as_str()));
        }
        if let Err(e) = states.set_header(request, "UUID".to_owned(), label) {
            return Err(e.message());
        }
        let ghost tagged = before[request.rep].with_header("UUID"@, subdomain(host@));
        assert(states.views() =~= before.insert(request.rep, tagged));
        let parent_copy = parent.clone();
        if let Err(e) = states.set_header(request, "HOST".to_owned(), parent_copy) {
            return Err(e.message());
        }
        let ghost hosted = tagged.with_header("HOST"@, parent@);
        assert(states.views() =~= before.insert(request.rep, hosted));
        if uri.as_str().unicode_len() > MAX_TEXT || parent.as_str().unicode_len() > MAX_TEXT {
            return Err("Invalid new host: text too long".to_owned());
        }
        let url = match url_with_host(uri.as_str(), parent.as_str()) {
            Err(m) => {
                return Err("Invalid new host: ".to_owned().concat(m.as_str()));
            },
            Ok(url) => url,
        };
        match states.set_uri(request, url) {
            Err(e) => Err(e.message()),
            Ok(()) => {
                assert(states.views() =~= before.insert(
                    request.rep,
                    hosted.with_uri(uri_verdict(url@)->Ok_0),
                ));
                Ok(())
            },
        }
    }
}

} // verus!
