//! The request that a plugin is allowed to see and rewrite.

use vstd::prelude::*;
use crate::grammar::{check_header, check_uri, header_key, header_verdict, has_header_key,
    same_header, uri_verdict, ValidationError};

verus! {

/// The mathematical content of a request: what two requests must share to be
/// the same request.
pub struct RequestView {
    pub method: Seq<char>,
    pub uri: Seq<char>,
    /// Header pairs in insertion order; a name may occur more than once.
    pub headers: Seq<(Seq<char>, Seq<char>)>,
    pub body: Seq<u8>,
}

/// Whether `at` is where a write of the header `name` lands among `headers`:
/// the first position whose name denotes the same header, or the end if no
/// name does.
pub open spec fn is_first_match(headers: Seq<(Seq<char>, Seq<char>)>, name: Seq<char>, at: int) -> bool {
    &&& 0 <= at <= headers.len()
    &&& forall|j: int| 0 <= j < at ==> !same_header(#[trigger] headers[j].0, name)
    &&& at < headers.len() ==> same_header(headers[at].0, name)
}

pub open spec fn first_match(headers: Seq<(Seq<char>, Seq<char>)>, name: Seq<char>) -> int {
    choose|at: int| is_first_match(headers, name, at)
}

/// The test that a header passes when its name denotes another header than
/// `name`.
pub open spec fn other_header(name: Seq<char>) -> spec_fn((Seq<char>, Seq<char>)) -> bool {
    |h: (Seq<char>, Seq<char>)| !same_header(h.0, name)
}

/// The headers after `name` was set to `value`. Where the header is present,
/// its first occurrence is replaced in place and every later occurrence is
/// dropped; where it is not, the pair is added at the end.
pub open spec fn upsert_header(
    headers: Seq<(Seq<char>, Seq<char>)>,
    name: Seq<char>,
    value: Seq<char>,
) -> Seq<(Seq<char>, Seq<char>)> {
    let at = first_match(headers, name);
    if at < headers.len() {
        headers.take(at).push((name, value)) + headers.skip(at + 1).filter(other_header(name))
    } else {
        headers.push((name, value))
    }
}

impl RequestView {
    pub open spec fn with_header(self, name: Seq<char>, value: Seq<char>) -> RequestView {
        RequestView {
            method: self.method,
            uri: self.uri,
            headers: upsert_header(self.headers, name, value),
            body: self.body,
        }
    }

    pub open spec fn with_uri(self, uri: Seq<char>) -> RequestView {
        RequestView { method: self.method, uri: uri, headers: self.headers, body: self.body }
    }
}

/// At most one position is where a write of `name` lands.
pub proof fn lemma_first_match_is_unique(headers: Seq<(Seq<char>, Seq<char>)>, name: Seq<char>, at: int)
    requires
        is_first_match(headers, name, at),
    ensures
        first_match(headers, name) == at,
{
    let chosen = first_match(headers, name);
    assert(is_first_match(headers, name, chosen));
    if chosen < at {
        assert(!same_header(headers[chosen].0, name));
    } else if at < chosen {
        assert(!same_header(headers[at].0, name));
    }
}

/// The header pairs of a request as sequences of characters.
pub open spec fn header_views(headers: Seq<(String, String)>) -> Seq<(Seq<char>, Seq<char>)> {
    headers.map_values(|h: (String, String)| (h.0@, h.1@))
}

/// A transient, in-memory request: method, target, ordered headers and a body
/// that passes through untouched.
#[derive(Clone, Debug, PartialEq, Eq)]
pub struct HostRequestState {
    pub method: String,
    pub uri: String,
    pub headers: Vec<(String, String)>,
    pub body: Vec<u8>,
}

impl View for HostRequestState {
    type V = RequestView;

    open spec fn view(&self) -> RequestView {
        RequestView {
            method: self.method@,
            uri: self.uri@,
            headers: header_views(self.headers@),
            body: self.body@,
        }
    }
}

impl HostRequestState {
    pub fn new(method: String, uri: String, headers: Vec<(String, String)>, body: Vec<u8>) -> (request:
        HostRequestState)
        ensures
            request@ == (RequestView {
                method: method@,
                uri: uri@,
                headers: header_views(headers@),
                body: body@,
            }),
    {
        HostRequestState { method, uri, headers, body }
    }

    /// Sets the header `name` to `value` if both pass their grammar, and
    /// leaves the request as it was if one does not.
    pub fn set_header(&mut self, name: String, value: String) -> (done: Result<(), ValidationError>)
        ensures
            done == header_verdict(name@, value@),
            final(self)@ == if done is Ok {
                old(self)@.with_header(name@, value@)
            } else {
                old(self)@
            },
    {
        match check_header(name.as_str(), value.as_str()) {
            Ok(key) => {
                self.store_header(&key, name, value);
                Ok(())
            },
            Err(e) => Err(e),
        }
    }

    /// Replaces the target by the canonical text of `uri` if `uri` is one,
    /// and leaves the request as it was if it is not.
    pub fn set_uri(&mut self, uri: &str) -> (done: Result<(), ValidationError>)
        ensures
            match done {
                Ok(()) => uri_verdict(uri@) is Ok && final(self)@ == old(self)@.with_uri(
                    uri_verdict(uri@)->Ok_0,
                ),
                Err(e) => uri_verdict(uri@) == Err::<Seq<char>, ValidationError>(e) && final(self)@
                    == old(self)@,
            },
    {
        match check_uri(uri) {
            Ok(canonical) => {
                self.uri = canonical;
                Ok(())
            },
            Err(e) => Err(e),
        }
    }

    /// Writes a header that has passed its grammar; `key` is the key of
    /// `name`.
    pub(crate) fn store_header(&mut self, key: &String, name: String, value: String)
        requires
            header_key(name@) == Some(key@),
        ensures
            final(self)@ == old(self)@.with_header(name@, value@),
    {
        let ghost before = header_views(self.headers@);
        let ghost entry = (name@, value@);
        let ghost at: int = 0;
        let mut kept: Vec<(String, String)> = Vec::new();
        let mut placed = false;
        let mut i: usize = 0;
        while i < self.headers.len()
            invariant
                i <= self.headers.len(),
                before == header_views(self.headers@),
                entry == (name@, value@),
                header_key(name@) == Some(key@),
                !placed ==> header_views(kept@) == before.take(i as int),
                !placed ==> forall|j: int| 0 <= j < i ==> !same_header(#[trigger] before[j].0, name@),
                placed ==> 0 <= at < i && is_first_match(before, name@, at),
                placed ==> header_views(kept@) == before.take(at).push(entry) + before.subrange(
                    at + 1,
                    i as int,
                ).filter(other_header(name@)),
            decreases self.headers.len() - i,
        {
            let ghost seen = header_views(kept@);
            let same = has_header_key(self.headers[i].0.as_str(), key);
            assert(same == same_header(before[i as int].0, name@));
            if same {
                if !placed {
                    kept.push((name.clone(), value.clone()));
                    placed = true;
                    proof {
                        at = i as int;
                        assert(header_views(kept@) =~= seen.push(entry));
                        assert(before.subrange(at + 1, i + 1).filter(other_header(name@))
                            =~= Seq::<(Seq<char>, Seq<char>)>::empty()) by {
                            reveal(Seq::filter);
                        }
                    }
                } else {
                    proof {
                        let grown = before.subrange(at + 1, i + 1);
                        assert(grown.drop_last() =~= before.subrange(at + 1, i as int));
                        assert(grown.last() == before[i as int]);
                        assert(grown.filter(other_header(name@)) == before.subrange(
                            at + 1,
                            i as int,
                        ).filter(other_header(name@))) by {
                            reveal(Seq::filter);
                        }
                    }
                }
            } else {
                let stored_name = self.headers[i].0.clone();
                let stored_value = self.headers[i].1.clone();
                kept.push((stored_name, stored_value));
                proof {
                    assert(header_views(kept@) =~= seen.push(before[i as int]));
                    if placed {
                        let grown = before.subrange(at + 1, i + 1);
                        assert(grown.drop_last() =~= before.subrange(at + 1, i as int));
                        assert(grown.last() == before[i as int]);
                        assert(grown.filter(other_header(name@)) == before.subrange(
                            at + 1,
                            i as int,
                        ).filter(other_header(name@)).push(before[i as int])) by {
                            reveal(Seq::filter);
                        }
                        assert(header_views(kept@) =~= before.take(at).push(entry) + grown.filter(
                            other_header(name@),
                        ));
                    } else {
                        assert(header_views(kept@) =~= before.take(i + 1));
                    }
                }
            }
            i += 1;
        }
        if !placed {
            kept.push((name, value));
            proof {
                assert(is_first_match(before, name@, before.len() as int));
                lemma_first_match_is_unique(before, name@, before.len() as int);
                assert(before.take(before.len() as int) =~= before);
                assert(header_views(kept@) =~= before.push(entry));
            }
        } else {
            proof {
                lemma_first_match_is_unique(before, name@, at);
                assert(before.subrange(at + 1, before.len() as int) =~= before.skip(at + 1));
            }
        }
        self.headers = kept;
    }

    /// A copy of the header pairs, in order.
    pub fn header_list(&self) -> (list: Vec<(String, String)>)
        ensures
            header_views(list@) == self@.headers,
    {
        let mut list: Vec<(String, String)> = Vec::new();
        let mut i: usize = 0;
        while i < self.headers.len()
            invariant
                i <= self.headers.len(),
                list.len() == i,
                forall|j: int| 0 <= j < i ==> list@[j].0@ == self.headers@[j].0@ && list@[j].1@ == self.headers@[j].1@,
            decreases self.headers.len() - i,
        {
            let name = self.headers[i].0.clone();
            let value = self.headers[i].1.clone();
            list.push((name, value));
            i += 1;
        }
        assert(header_views(list@) =~= header_views(self.headers@));
        list
    }
}

} // verus!
