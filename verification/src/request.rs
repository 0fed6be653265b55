//! A plain description of an HTTP request for the caller's transport to
//! perform: the library decides what to send, the caller sends it.

use vstd::prelude::*;

verus! {

#[derive(Debug, Clone, Copy, PartialEq, Eq)]
pub enum HttpMethod {
    Get,
    Post,
}

/// One request to issue: method, URL, headers, and the URL-encoded form
/// body (empty for GET requests).
#[derive(Debug)]
pub struct HttpRequest {
    pub method: HttpMethod,
    pub url: String,
    pub headers: Vec<(String, String)>,
    pub form: Vec<(String, String)>,
}

} // verus!
