//! Default response headers: a response without a content type is an HTML
//! page, and what is not an HTML page may be cached for ten minutes.

use std::rc::Rc;
use vstd::prelude::*;
use vstd::string::StringSliceAdditionalSpecFns;

verus! {

/// The middleware's factory.
pub struct DefaultHtmlContentType;

/// The middleware around a service.
pub struct DefaultHtmlContentTypeMiddleware<S> {
    pub service: Rc<S>,
}

/// What the middleware adds to a response's headers.
#[derive(Clone, Copy, PartialEq, Eq, Debug)]
pub struct HeaderChanges {
    /// Whether to set the content type to that of an HTML page.
    pub set_html_content_type: bool,
    /// Whether to set the cache control to ten minutes.
    pub set_cache_control: bool,
}

/// The content type of an HTML page.
pub open spec fn html_content_type() -> Seq<u8> {
    "text/html; charset=utf-8".spec_bytes()
}

/// The changes for a response with the given content type header, if it has
/// one. Without one the response becomes an HTML page. With the content type
/// of an HTML page nothing changes. With any other one the response gets the
/// cache control.
pub open spec fn changes_for(content_type: Option<Seq<u8>>) -> HeaderChanges {
    match content_type {
        None => HeaderChanges { set_html_content_type: true, set_cache_control: false },
        Some(value) => HeaderChanges {
            set_html_content_type: false,
            set_cache_control: value != html_content_type(),
        },
    }
}

/// The bytes of an optional header value.
pub open spec fn optional_bytes(value: Option<&[u8]>) -> Option<Seq<u8>> {
    match value {
        Some(value) => Some(value@),
        None => None,
    }
}

/// Whether two byte strings are the same.
pub fn same_bytes(left: &[u8], right: &[u8]) -> (same: bool)
    ensures
        same == (left@ == right@),
{
    if left.len() != right.len() {
        return false;
    }
    let mut i: usize = 0;
    while i < left.len()
        invariant
            i <= left.len(),
            left.len() == right.len(),
            forall|j: int| 0 <= j < i ==> left@[j] == right@[j],
        decreases left.len() - i,
    {
        if left[i] != right[i] {
            return false;
        }
        i += 1;
    }
    assert(left@ =~= right@);
    true
}

/// The content type of an HTML page, as a header value.
pub fn html_content_type_value() -> (value: &'static str)
    ensures
        value.spec_bytes() == html_content_type(),
{
    "text/html; charset=utf-8"
}

/// The cache control of what is not an HTML page, as a header value.
pub fn cache_control_value() -> (value: &'static str)
    ensures
        value@ == "max-age=600"@,
{
    "max-age=600"
}

impl DefaultHtmlContentType {
    /// The middleware around `service`.
    pub fn new_transform<S>(&self, service: S) -> (middleware: DefaultHtmlContentTypeMiddleware<S>)
        ensures
            *middleware.service == service,
    {
        DefaultHtmlContentTypeMiddleware { service: Rc::new(service) }
    }
}

impl<S> DefaultHtmlContentTypeMiddleware<S> {
    /// What to add to the headers of a response that came back with the
    /// given content type header, if it had one.
    pub fn changes(&self, content_type: Option<&[u8]>) -> (changes: HeaderChanges)
        ensures
            changes == changes_for(optional_bytes(content_type)),
    {
        match content_type {
            None => HeaderChanges { set_html_content_type: true, set_cache_control: false },
            Some(value) => HeaderChanges {
                set_html_content_type: false,
                set_cache_control: !same_bytes(value, html_content_type_value().as_bytes()),
            },
        }
    }
}

} // verus!
