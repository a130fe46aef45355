//! A convenience layer over an HTTP engine: request dispatch with bounded
//! retry-and-delay orchestration, and small response-decoding helpers.
//!
//! The engine itself (connection handling, TLS, redirects, timeouts) is an
//! outside collaborator; this crate owns the retry protocol and the decoding
//! of response bytes.

use vstd::prelude::*;

pub mod blocking;
pub mod error;
pub mod response;
pub mod retry;

verus! {

/// Try clone.
pub trait TryClone where Self: Sized {
    /// Try clone the object.
    ///
    /// Returns `None` when the value cannot be duplicated, for example when a
    /// request body is backed by a single-consumption stream.
    fn try_clone(&self) -> Option<Self>;
}

/// An HTTP method, as the verb convenience facade fixes it.
#[derive(Clone, Copy, Debug, PartialEq, Eq, Structural)]
pub enum Method {
    /// GET
    Get,
    /// POST
    Post,
    /// PUT
    Put,
    /// DELETE
    Delete,
    /// HEAD
    Head,
    /// OPTIONS
    Options,
    /// CONNECT
    Connect,
    /// PATCH
    Patch,
    /// TRACE
    Trace,
}

/// Declares `reqwest::Request`, the engine-native request descriptor.
#[verifier::external_type_specification]
#[verifier::external_body]
pub struct ExRequest(reqwest::Request);

/// Relies on `reqwest::Request::try_clone`: `None` exactly when the request
/// cannot be cloned, that is when its body is a stream.
#[verifier::external_body]
fn request_try_clone(request: &reqwest::Request) -> (r: Option<reqwest::Request>) {
    request.try_clone()
}

impl TryClone for reqwest::Request {
    fn try_clone(&self) -> Option<Self> {
        request_try_clone(self)
    }
}

/// Declares `std::sync::LazyLock`, a cell whose value is produced by a
/// closure on first access.
#[verifier::external_type_specification]
#[verifier::external_body]
#[verifier::reject_recursive_types(T)]
#[verifier::reject_recursive_types(F)]
pub struct ExLazyLock<T, F>(std::sync::LazyLock<T, F>);

/// Relies on `std::sync::LazyLock::new`: the returned cell runs `f` once,
/// on first access, and hands every access the one produced value.
pub assume_specification<T, F: FnOnce() -> T>[ std::sync::LazyLock::<T, F>::new ](f: F) -> (r:
    std::sync::LazyLock<T, F>);

/// Create a new lazy client instance.
///
/// This is useful to avoid allocating multiple new clients: construction is
/// deferred to the first access of the returned cell, and every access
/// shares the one constructed instance.
pub fn lazy<F, C>(f: F) -> (r: std::sync::LazyLock<C, F>) where F: FnOnce() -> C {
    std::sync::LazyLock::new(f)
}

} // verus!
