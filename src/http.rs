use vstd::prelude::*;
use vstd::string::*;

use crate::text::{occurs_in, text_contains};

verus! {

/// How many redirects are followed before the chain is stopped.
pub const MAX_REDIRECTS: usize = 100;

/// The content type as a text; an absent header reads as empty.
pub open spec fn content_type_text(content_type: Option<String>) -> Seq<char> {
    match content_type {
        Some(t) => t@,
        None => Seq::empty(),
    }
}

/// Whether another redirect is followed after `previous` ones.
pub fn follow_redirect(previous: usize) -> (r: bool)
    ensures
        r == (previous < MAX_REDIRECTS),
{
    previous < MAX_REDIRECTS
}

/// Whether a response's body is read as a page: its content type mentions `text/html`.
pub fn is_html(content_type: &Option<String>) -> (r: bool)
    ensures
        r == occurs_in("text/html"@, content_type_text(*content_type)),
{
    proof {
        reveal_strlit("text/html");
    }
    match content_type {
        Some(t) => text_contains(t.as_str(), "text/html"),
        None => {
            assert(!occurs_in("text/html"@, Seq::<char>::empty()));
            false
        },
    }
}

/// Whether a response's body is read as JSON: its content type mentions
/// `application/json`; otherwise the error that the caller receives.
pub fn check_json(content_type: &Option<String>) -> (r: Result<(), String>)
    ensures
        occurs_in("application/json"@, content_type_text(*content_type)) <==> r is Ok,
        r is Err ==> r->Err_0@ == "Response is not JSON"@,
{
    proof {
        reveal_strlit("application/json");
        reveal_strlit("Response is not JSON");
    }
    let ok = match content_type {
        Some(t) => text_contains(t.as_str(), "application/json"),
        None => {
            assert(!occurs_in("application/json"@, Seq::<char>::empty()));
            false
        },
    };
    if ok {
        Ok(())
    } else {
        Err(String::from_str("Response is not JSON"))
    }
}

} // verus!
