//! Request spans. They record nothing: the library keeps no request log.
use std::marker::PhantomData;
use vstd::prelude::*;

verus! {

/// The span of one API request.
pub struct RequestSpan;

/// Keeps a request span entered while it lives.
pub struct RequestSpanGuard<'a> {
    _marker: PhantomData<&'a ()>,
}

impl RequestSpan {
    /// Opens the span of a request with the given method, path and URL.
    pub fn new(_method: &'static str, _path: &str, _url: &str) -> Self {
        RequestSpan
    }

    /// Enters the span until the returned guard is dropped.
    pub fn enter(&self) -> RequestSpanGuard<'_> {
        RequestSpanGuard { _marker: PhantomData }
    }

    /// Records the status code of the answer.
    pub fn record_status(&self, _status: u16) {
    }

    /// Records that the request failed, with the failure's text.
    pub fn record_error(&self, _message: &str) {
    }
}

} // verus!
