//! Blocking APIs: the synchronous face of the retry contract.
//!
//! The calling thread blocks for the duration of each dispatch and for the
//! full delay between attempts. The asynchronous face of the same contract
//! lives outside the verified library, as a driver over the decision
//! functions of [`crate::retry`].

use vstd::prelude::*;

use crate::Method;
use crate::TryClone;
use crate::error::Error;
use crate::retry::{FailurePlan, RetryPolicy, after_failure};

verus! {

/// Declares `reqwest::blocking::Request`, the blocking engine's native
/// request descriptor.
#[verifier::external_type_specification]
#[verifier::external_body]
pub struct ExBlockingRequest(reqwest::blocking::Request);

/// Relies on `reqwest::blocking::Request::try_clone`: `None` exactly when
/// the request cannot be cloned, that is when its body is a stream.
#[verifier::external_body]
fn blocking_request_try_clone(request: &reqwest::blocking::Request) -> (r: Option<
    reqwest::blocking::Request,
>) {
    request.try_clone()
}

impl TryClone for reqwest::blocking::Request {
    fn try_clone(&self) -> Option<Self> {
        blocking_request_try_clone(self)
    }
}

/// Blocking HTTP client functionality.
///
/// `request` performs exactly one exchange through the underlying engine;
/// the provided `request_with_retries` wraps it in the retry orchestration
/// of [`crate::retry`]. `sleep` is how the implementor waits between
/// attempts; the orchestrator never calls it before the first attempt or
/// after the last.
pub trait Http where Self: Send + Sync {
    /// Request type.
    ///
    /// If the body is a stream type, it may not be cloneable.
    type Request: Send + TryClone;

    /// Response type.
    type Response: Send;

    /// Perform a generic request.
    fn request(&self, request: Self::Request) -> Result<Self::Response, Error>;

    /// Block for the given number of milliseconds.
    fn sleep(&self, delay_ms: u64);

    /// Perform a generic request with retries: up to `retries` attempts,
    /// with `retry_delay_ms` milliseconds between consecutive attempts.
    ///
    /// A budget of zero performs no attempt at all. A failed attempt is
    /// absorbed into the next one, so a run only ever ends with the
    /// exceeded-budget error carrying the budget, or — only under a budget
    /// above one — the non-retriable-request error, raised when the
    /// descriptor could not be duplicated for a pending second attempt.
    fn request_with_retries(
        &self,
        request: Self::Request,
        retries: u32,
        retry_delay_ms: u64,
    ) -> (r: Result<Self::Response, Error>)
        ensures
            retries == 0 ==> r == Err::<Self::Response, Error>(Error::ExceededMaxRetries(0)),
            (match r {
                Ok(_) => true,
                Err(e) => e == Error::ExceededMaxRetries(retries) || (e
                    == Error::NonRetriableRequest && retries > 1),
            }),
    {
        let policy = RetryPolicy { retries, retry_delay_ms };
        if retries == 0 {
            return Err(Error::ExceededMaxRetries(0));
        }
        let original = request;
        let mut dispatched: u32 = 0;
        loop
            invariant
                policy == (RetryPolicy { retries, retry_delay_ms }),
                1 <= retries,
                dispatched < retries,
            decreases retries - dispatched,
        {
            match original.try_clone() {
                Some(copy) => {
                    match self.request(copy) {
                        Ok(response) => {
                            return Ok(response);
                        },
                        Err(_attempt_error) => {
                            match after_failure(policy, true, dispatched + 1) {
                                FailurePlan::GiveUp { error } => {
                                    return Err(error);
                                },
                                FailurePlan::Backoff { delay_ms } => {
                                    self.sleep(delay_ms);
                                    dispatched = dispatched + 1;
                                },
                            }
                        },
                    }
                },
                None => {
                    // the sole physical use of a descriptor that cannot be
                    // duplicated: whatever happens, this dispatch is the last
                    match self.request(original) {
                        Ok(response) => {
                            return Ok(response);
                        },
                        Err(_attempt_error) => {
                            match after_failure(policy, false, dispatched + 1) {
                                FailurePlan::GiveUp { error } => {
                                    return Err(error);
                                },
                                FailurePlan::Backoff { .. } => {
                                    return unreached();
                                },
                            }
                        },
                    }
                },
            }
        }
    }

    /// Build an engine request from a method, a target address and an
    /// optional body. How the address is parsed and the body materialized
    /// is the engine's own affair, so nothing further is promised here.
    fn build_request(
        &self,
        method: Method,
        address: &str,
        body: Option<Vec<u8>>,
    ) -> Result<Self::Request, Error>;

    /// Perform a GET request against the address. Pure delegation to
    /// `build_request` and `request`.
    fn get(&self, address: &str) -> Result<Self::Response, Error> {
        match self.build_request(Method::Get, address, None) {
            Ok(request) => self.request(request),
            Err(error) => Err(error),
        }
    }

    /// Perform a GET request against the address, with retries. An empty
    /// budget builds nothing and returns the exceeded-budget error.
    fn get_with_retries(&self, address: &str, retries: u32, retry_delay_ms: u64) -> (r: Result<
        Self::Response,
        Error,
    >)
        ensures
            retries == 0 ==> r == Err::<Self::Response, Error>(Error::ExceededMaxRetries(0)),
    {
        if retries == 0 {
            return Err(Error::ExceededMaxRetries(0));
        }
        match self.build_request(Method::Get, address, None) {
            Ok(request) => self.request_with_retries(request, retries, retry_delay_ms),
            Err(error) => Err(error),
        }
    }

    /// Perform a POST request carrying the body.
    fn post(&self, address: &str, body: Vec<u8>) -> Result<Self::Response, Error> {
        match self.build_request(Method::Post, address, Some(body)) {
            Ok(request) => self.request(request),
            Err(error) => Err(error),
        }
    }

    /// Perform a POST request carrying the body, with retries. An empty
    /// budget builds nothing and returns the exceeded-budget error.
    fn post_with_retries(
        &self,
        address: &str,
        body: Vec<u8>,
        retries: u32,
        retry_delay_ms: u64,
    ) -> (r: Result<Self::Response, Error>)
        ensures
            retries == 0 ==> r == Err::<Self::Response, Error>(Error::ExceededMaxRetries(0)),
    {
        if retries == 0 {
            return Err(Error::ExceededMaxRetries(0));
        }
        match self.build_request(Method::Post, address, Some(body)) {
            Ok(request) => self.request_with_retries(request, retries, retry_delay_ms),
            Err(error) => Err(error),
        }
    }

    /// Perform a PUT request carrying the body.
    fn put(&self, address: &str, body: Vec<u8>) -> Result<Self::Response, Error> {
        match self.build_request(Method::Put, address, Some(body)) {
            Ok(request) => self.request(request),
            Err(error) => Err(error),
        }
    }

    /// Perform a PUT request carrying the body, with retries. An empty
    /// budget builds nothing and returns the exceeded-budget error.
    fn put_with_retries(
        &self,
        address: &str,
        body: Vec<u8>,
        retries: u32,
        retry_delay_ms: u64,
    ) -> (r: Result<Self::Response, Error>)
        ensures
            retries == 0 ==> r == Err::<Self::Response, Error>(Error::ExceededMaxRetries(0)),
    {
        if retries == 0 {
            return Err(Error::ExceededMaxRetries(0));
        }
        match self.build_request(Method::Put, address, Some(body)) {
            Ok(request) => self.request_with_retries(request, retries, retry_delay_ms),
            Err(error) => Err(error),
        }
    }

    /// Perform a PATCH request carrying the body.
    fn patch(&self, address: &str, body: Vec<u8>) -> Result<Self::Response, Error> {
        match self.build_request(Method::Patch, address, Some(body)) {
            Ok(request) => self.request(request),
            Err(error) => Err(error),
        }
    }

    /// Perform a PATCH request carrying the body, with retries. An empty
    /// budget builds nothing and returns the exceeded-budget error.
    fn patch_with_retries(
        &self,
        address: &str,
        body: Vec<u8>,
        retries: u32,
        retry_delay_ms: u64,
    ) -> (r: Result<Self::Response, Error>)
        ensures
            retries == 0 ==> r == Err::<Self::Response, Error>(Error::ExceededMaxRetries(0)),
    {
        if retries == 0 {
            return Err(Error::ExceededMaxRetries(0));
        }
        match self.build_request(Method::Patch, address, Some(body)) {
            Ok(request) => self.request_with_retries(request, retries, retry_delay_ms),
            Err(error) => Err(error),
        }
    }

    /// Perform a DELETE request against the address.
    fn delete(&self, address: &str) -> Result<Self::Response, Error> {
        match self.build_request(Method::Delete, address, None) {
            Ok(request) => self.request(request),
            Err(error) => Err(error),
        }
    }

    /// Perform a DELETE request against the address, with retries. An empty
    /// budget builds nothing and returns the exceeded-budget error.
    fn delete_with_retries(&self, address: &str, retries: u32, retry_delay_ms: u64) -> (r: Result<
        Self::Response,
        Error,
    >)
        ensures
            retries == 0 ==> r == Err::<Self::Response, Error>(Error::ExceededMaxRetries(0)),
    {
        if retries == 0 {
            return Err(Error::ExceededMaxRetries(0));
        }
        match self.build_request(Method::Delete, address, None) {
            Ok(request) => self.request_with_retries(request, retries, retry_delay_ms),
            Err(error) => Err(error),
        }
    }

    /// Perform a HEAD request against the address.
    fn head(&self, address: &str) -> Result<Self::Response, Error> {
        match self.build_request(Method::Head, address, None) {
            Ok(request) => self.request(request),
            Err(error) => Err(error),
        }
    }

    /// Perform a HEAD request against the address, with retries. An empty
    /// budget builds nothing and returns the exceeded-budget error.
    fn head_with_retries(&self, address: &str, retries: u32, retry_delay_ms: u64) -> (r: Result<
        Self::Response,
        Error,
    >)
        ensures
            retries == 0 ==> r == Err::<Self::Response, Error>(Error::ExceededMaxRetries(0)),
    {
        if retries == 0 {
            return Err(Error::ExceededMaxRetries(0));
        }
        match self.build_request(Method::Head, address, None) {
            Ok(request) => self.request_with_retries(request, retries, retry_delay_ms),
            Err(error) => Err(error),
        }
    }

    /// Perform an OPTIONS request against the address.
    fn options(&self, address: &str) -> Result<Self::Response, Error> {
        match self.build_request(Method::Options, address, None) {
            Ok(request) => self.request(request),
            Err(error) => Err(error),
        }
    }

    /// Perform an OPTIONS request against the address, with retries. An
    /// empty budget builds nothing and returns the exceeded-budget error.
    fn options_with_retries(&self, address: &str, retries: u32, retry_delay_ms: u64) -> (r: Result<
        Self::Response,
        Error,
    >)
        ensures
            retries == 0 ==> r == Err::<Self::Response, Error>(Error::ExceededMaxRetries(0)),
    {
        if retries == 0 {
            return Err(Error::ExceededMaxRetries(0));
        }
        match self.build_request(Method::Options, address, None) {
            Ok(request) => self.request_with_retries(request, retries, retry_delay_ms),
            Err(error) => Err(error),
        }
    }

    /// Perform a CONNECT request against the address.
    fn connect(&self, address: &str) -> Result<Self::Response, Error> {
        match self.build_request(Method::Connect, address, None) {
            Ok(request) => self.request(request),
            Err(error) => Err(error),
        }
    }

    /// Perform a CONNECT request against the address, with retries. An
    /// empty budget builds nothing and returns the exceeded-budget error.
    fn connect_with_retries(&self, address: &str, retries: u32, retry_delay_ms: u64) -> (r: Result<
        Self::Response,
        Error,
    >)
        ensures
            retries == 0 ==> r == Err::<Self::Response, Error>(Error::ExceededMaxRetries(0)),
    {
        if retries == 0 {
            return Err(Error::ExceededMaxRetries(0));
        }
        match self.build_request(Method::Connect, address, None) {
            Ok(request) => self.request_with_retries(request, retries, retry_delay_ms),
            Err(error) => Err(error),
        }
    }

    /// Perform a TRACE request against the address.
    fn trace(&self, address: &str) -> Result<Self::Response, Error> {
        match self.build_request(Method::Trace, address, None) {
            Ok(request) => self.request(request),
            Err(error) => Err(error),
        }
    }

    /// Perform a TRACE request against the address, with retries. An empty
    /// budget builds nothing and returns the exceeded-budget error.
    fn trace_with_retries(&self, address: &str, retries: u32, retry_delay_ms: u64) -> (r: Result<
        Self::Response,
        Error,
    >)
        ensures
            retries == 0 ==> r == Err::<Self::Response, Error>(Error::ExceededMaxRetries(0)),
    {
        if retries == 0 {
            return Err(Error::ExceededMaxRetries(0));
        }
        match self.build_request(Method::Trace, address, None) {
            Ok(request) => self.request_with_retries(request, retries, retry_delay_ms),
            Err(error) => Err(error),
        }
    }
}

} // verus!
