//! The three request handlers: shorten a URL, redirect an id, and the
//! fixed greeting. Each handler is a pure decision over the store; the
//! HTTP framing around them lives outside the library.

use vstd::prelude::*;

use crate::store::{ids_dense, Store};

verus! {

/// The body of the greeting response.
pub open spec fn greeting_text() -> Seq<char> {
    "Hello, World!"@
}

/// The error message reported when a submitted URL is rejected.
pub open spec fn invalid_url_text() -> Seq<char> {
    "invalid url"@
}

/// A URL is accepted exactly when it begins with the literal prefix `http`.
pub open spec fn spec_url_accepted(u: Seq<char>) -> bool {
    &&& u.len() >= 4
    &&& u[0] == 'h'
    &&& u[1] == 't'
    &&& u[2] == 't'
    &&& u[3] == 'p'
}

/// The root handler: always status 200 with the fixed greeting,
/// independent of any store state.
pub fn root() -> (r: (u16, &'static str))
    ensures
        r.0 == 200,
        r.1@ == greeting_text(),
{
    (200, "Hello, World!")
}

/// Decide whether a submitted URL passes validation: does it begin
/// with the prefix `http`?
pub fn url_accepted(u: &str) -> (r: bool)
    ensures
        r == spec_url_accepted(u@),
{
    let n: usize = u.unicode_len();
    if n < 4 {
        return false;
    }
    u.get_char(0) == 'h' && u.get_char(1) == 't' && u.get_char(2) == 't' && u.get_char(3) == 'p'
}

/// The message sent back in the error payload of a rejected submission.
pub fn invalid_url_message() -> (r: &'static str)
    ensures
        r@ == invalid_url_text(),
{
    "invalid url"
}

/// What a shorten request decides: either the URL was accepted and stored
/// under a fresh id, or it failed validation and the store is untouched.
pub enum ShortenOutcome {
    Accepted { original_url: String, short_id: u32 },
    Rejected,
}

impl ShortenOutcome {
    /// Both outcomes answer with HTTP status 200: a rejection is reported
    /// in-band by the error payload, never as an HTTP-level failure.
    pub fn status(&self) -> (s: u16)
        ensures
            s == 200,
    {
        200
    }
}

/// The shorten handler. An accepted URL is stored verbatim under the next
/// sequential id, which is returned with it; a rejected URL leaves the
/// store exactly as it was.
pub fn shorten(store: &mut Store, url: String) -> (r: ShortenOutcome)
    requires
        ids_dense(old(store)@),
        old(store)@.len() < u32::MAX,
    ensures
        ids_dense(final(store)@),
        spec_url_accepted(url@) ==> {
            &&& r matches ShortenOutcome::Accepted { original_url, short_id }
            &&& original_url@ == url@
            &&& short_id as nat == old(store)@.len()
            &&& !old(store)@.contains_key(short_id)
            &&& final(store)@ == old(store)@.insert(short_id, url@)
        },
        !spec_url_accepted(url@) ==> {
            &&& r is Rejected
            &&& final(store)@ == old(store)@
        },
{
    if url_accepted(url.as_str()) {
        let id: u32 = store.insert(url.clone());
        ShortenOutcome::Accepted { original_url: url, short_id: id }
    } else {
        ShortenOutcome::Rejected
    }
}

/// What a redirect request decides: either the id is known and the reply
/// redirects to the stored URL, or the id was never assigned.
pub enum RedirectOutcome {
    Found { location: String },
    NotFound,
}

/// The HTTP status a redirect outcome answers with: 302 for a known id,
/// 404 for an unknown one.
pub open spec fn spec_redirect_status(r: RedirectOutcome) -> u16 {
    match r {
        RedirectOutcome::Found { .. } => 302,
        RedirectOutcome::NotFound => 404,
    }
}

impl RedirectOutcome {
    pub fn status(&self) -> (s: u16)
        ensures
            s == spec_redirect_status(*self),
    {
        match self {
            RedirectOutcome::Found { .. } => 302,
            RedirectOutcome::NotFound => 404,
        }
    }
}

/// The redirect handler: a known id redirects to exactly the URL stored
/// under it; an unknown id is answered with not-found, never a crash.
pub fn redirect(store: &Store, id: u32) -> (r: RedirectOutcome)
    ensures
        store@.contains_key(id) ==> {
            &&& r matches RedirectOutcome::Found { location }
            &&& location@ == store@[id]
        },
        !store@.contains_key(id) ==> r is NotFound,
{
    match store.lookup(id) {
        Some(u) => RedirectOutcome::Found { location: u.clone() },
        None => RedirectOutcome::NotFound,
    }
}

} // verus!
