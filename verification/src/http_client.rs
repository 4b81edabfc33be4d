//! The execution pipeline: base-URL resolution, pre-request interception,
//! query and JSON-body application, the retry loop against the transport,
//! and post-response interception, in that fixed order.

use vstd::prelude::*;
use vstd::string::StringExecFns;

use crate::error::{HttpError, HttpResult};
use crate::http_headers::HttpHeaders;
use crate::http_request::{HttpRequest, RetryPolicy};
use crate::http_response::{HttpResponse, TransportReply};
use crate::http_url::{url_join, url_normalize, HttpUrl, HttpUrlError};

verus! {

/// The transport engine the pipeline sends prepared requests through, and
/// that pauses it between attempts. Nothing is assumed of either call: the
/// pipeline's contracts hold whatever an implementation does.
pub trait Transport {
    /// Perform one attempt: either a reply or a transport-level error text.
    fn send(&mut self, request: &HttpRequest) -> Result<TransportReply, String>;

    /// Pause before the next attempt.
    fn sleep_millis(&mut self, millis: u64);
}

/// The registered interceptors, pre-request and post-response, each chain
/// invoked one hook at a time in registration order. A hook may rewrite any
/// part of the request or response; the pipeline validates nothing of it.
/// Hooks have no failure channel: one that cannot do its work must leave
/// its target as it sees fit, and the pipeline carries on regardless.
pub trait InterceptorChain {
    /// How many pre-request hooks are registered.
    fn pre_count(&self) -> usize;

    /// How many post-response hooks are registered.
    fn post_count(&self) -> usize;

    /// Run the pre-request hook at the index on the in-flight request.
    fn pre_intercept(&mut self, index: usize, request: &mut HttpRequest);

    /// Run the post-response hook at the index on the received response.
    fn post_intercept(&mut self, index: usize, response: &mut HttpResponse);
}

/// An empty interceptor chain.
pub struct NoInterceptors;

impl InterceptorChain for NoInterceptors {
    fn pre_count(&self) -> usize {
        0
    }

    fn post_count(&self) -> usize {
        0
    }

    fn pre_intercept(&mut self, _index: usize, _request: &mut HttpRequest) {
    }

    fn post_intercept(&mut self, _index: usize, _response: &mut HttpResponse) {
    }
}

/// What the retry loop came back with: the last attempt's result, how many
/// attempts ran, and the attempts' outcome log.
pub struct RetryOutcome {
    /// The final attempt's reply or transport error text.
    pub result: Result<TransportReply, String>,
    /// How many attempts were performed.
    pub attempts: u32,
    /// One entry per attempt, true for a success; only the last can be true.
    pub outcomes: Ghost<Seq<bool>>,
}

/// What the retry loop guarantees of its outcome under a policy: the log
/// has one entry per attempt, every attempt but the last failed, the call
/// succeeds exactly when the last attempt did, and a failure is reported
/// only once the policy's maximum number of attempts has run.
pub open spec fn retry_contract(outcome: RetryOutcome, policy: RetryPolicy) -> bool {
    &&& outcome.outcomes@.len() == outcome.attempts
    &&& 1 <= outcome.attempts <= policy.max_attempts
    &&& (forall|k: int| 0 <= k < outcome.outcomes@.len() - 1 ==> !outcome.outcomes@[k])
    &&& (outcome.result is Ok <==> outcome.outcomes@.last())
    &&& (outcome.result is Err ==> outcome.attempts == policy.max_attempts)
}

/// A transport that fails every attempt is tried exactly the policy's
/// maximum number of times, and the call reports the last failure.
pub proof fn lemma_retry_exhausts_on_total_failure(outcome: RetryOutcome, policy: RetryPolicy)
    requires
        retry_contract(outcome, policy),
        forall|k: int| 0 <= k < outcome.outcomes@.len() ==> !outcome.outcomes@[k],
    ensures
        outcome.result is Err,
        outcome.attempts == policy.max_attempts,
{
    assert(!outcome.outcomes@.last());
}

/// A transport that succeeds on some attempt ends the loop right there:
/// the successful call made exactly as many attempts as its log records,
/// every attempt before the successful one failed, and the success is the
/// log's last entry.
pub proof fn lemma_retry_stops_at_first_success(outcome: RetryOutcome, policy: RetryPolicy)
    requires
        retry_contract(outcome, policy),
        outcome.result is Ok,
    ensures
        outcome.attempts == outcome.outcomes@.len(),
        outcome.outcomes@.last(),
        forall|k: int| 0 <= k < outcome.outcomes@.len() - 1 ==> !outcome.outcomes@[k],
{
}

/// Drive a fully-prepared request against the transport under a policy:
/// attempts run until one succeeds or the policy's maximum is reached, with
/// a pause of the policy's backoff, when nonzero, before each retry.
pub fn run_retry<T: Transport>(
    transport: &mut T,
    request: &HttpRequest,
    policy: &RetryPolicy,
) -> (r: RetryOutcome)
    requires
        policy.max_attempts >= 1,
    ensures
        retry_contract(r, *policy),
{
    let mut attempts: u32 = 0;
    let ghost mut log: Seq<bool> = Seq::empty();
    loop
        invariant
            attempts < policy.max_attempts,
            log.len() == attempts,
            forall|k: int| 0 <= k < log.len() ==> !log[k],
        decreases policy.max_attempts - attempts,
    {
        let outcome = transport.send(request);
        attempts = attempts + 1;
        match outcome {
            Ok(reply) => {
                proof {
                    log = log.push(true);
                }
                return RetryOutcome { result: Ok(reply), attempts, outcomes: Ghost(log) };
            },
            Err(error) => {
                proof {
                    log = log.push(false);
                }
                if attempts >= policy.max_attempts {
                    return RetryOutcome { result: Err(error), attempts, outcomes: Ghost(log) };
                }
                if policy.backoff_millis > 0 {
                    transport.sleep_millis(policy.backoff_millis);
                }
            },
        }
    }
}

/// The client: base URL, default headers and default retry policy, fixed at
/// construction. The engine itself and the interceptor hooks reach the
/// pipeline through the [`Transport`] and [`InterceptorChain`] it is handed
/// at each execution.
#[derive(Debug)]
pub struct ReqwestClient {
    /// The URL request paths are resolved against, if one is configured.
    pub base_url: Option<HttpUrl>,
    /// Headers the engine adds to every request it sends.
    pub default_headers: HttpHeaders,
    /// The retry policy used when a request carries none of its own.
    pub default_retry_policy: Option<RetryPolicy>,
}

impl ReqwestClient {
    /// Whether resolving the request's path against the configured base URL
    /// fails; only then does the pipeline fail with a configuration error.
    pub open spec fn join_fails(self, request: HttpRequest) -> bool {
        match (self.base_url, request.path) {
            (Some(base), Some(path)) => url_join(base@, path@) is None,
            _ => false,
        }
    }

    /// A client with no base URL, no default headers and no default retry
    /// policy.
    pub fn new() -> (r: Self)
        ensures
            r.base_url is None,
            r.default_headers@ == Map::<Seq<char>, Seq<char>>::empty(),
            r.default_retry_policy is None,
    {
        ReqwestClient {
            base_url: None,
            default_headers: HttpHeaders::new(),
            default_retry_policy: None,
        }
    }

    /// Configure the base URL, keeping the other settings; fails exactly
    /// when the URL library rejects the string.
    pub fn with_base_url(self, base_url: &str) -> (r: Result<Self, HttpUrlError>)
        ensures
            r is Ok <==> url_normalize(base_url@) is Some,
            r matches Ok(c) ==> (c.base_url matches Some(u) && Some(u@) == url_normalize(base_url@))
                && c.default_headers == self.default_headers && c.default_retry_policy
                == self.default_retry_policy,
    {
        match HttpUrl::parse(base_url) {
            Ok(url) => Ok(ReqwestClient { base_url: Some(url), ..self }),
            Err(e) => Err(e),
        }
    }

    /// Set the default headers the engine sends with every request,
    /// overriding any set before.
    pub fn with_default_headers(self, headers: HttpHeaders) -> (r: Self)
        ensures
            r == (ReqwestClient { default_headers: headers, ..self }),
    {
        ReqwestClient { default_headers: headers, ..self }
    }

    /// Set the default retry policy.
    pub fn with_default_retry_policy(self, policy: RetryPolicy) -> (r: Self)
        ensures
            r == (ReqwestClient { default_retry_policy: Some(policy), ..self }),
    {
        ReqwestClient { default_retry_policy: Some(policy), ..self }
    }

    /// Execute a request: resolve the base URL and path — failing at once,
    /// with no attempt made, if they cannot be joined — then run the
    /// pre-request hooks in order, append the query pairs, serialize the
    /// JSON body, drive the attempts under the effective retry policy, and
    /// run the post-response hooks in order on the reply.
    ///
    /// A configuration error is reported if and only if the join fails;
    /// otherwise the call returns the intercepted response of the first
    /// successful attempt, or the transport error of the last attempt once
    /// the policy is exhausted.
    pub fn execute<T: Transport, C: InterceptorChain>(
        &self,
        transport: &mut T,
        chain: &mut C,
        request: HttpRequest,
    ) -> (r: HttpResult<HttpResponse>)
        ensures
            self.join_fails(request) ==> (r matches Err(e) && e is Custom),
            !self.join_fails(request) ==> (r matches Ok(_) || (r matches Err(e)
                && e is Transport)),
    {
        let mut request = request;
        if let Some(base) = &self.base_url {
            if let Some(path) = &request.path {
                match base.join(path.as_str()) {
                    Ok(joined) => {
                        request.url = joined;
                    },
                    Err(join_error) => {
                        let mut message = "Failed to join base_url and path: ".to_owned();
                        message.append(join_error.message().as_str());
                        return Err(HttpError::Custom(message));
                    },
                }
            }
        }
        let pre_n = chain.pre_count();
        let mut i: usize = 0;
        while i < pre_n
            decreases pre_n - i,
        {
            chain.pre_intercept(i, &mut request);
            i += 1;
        }
        request.apply_query_params();
        request.apply_json_body();
        let policy = RetryPolicy::effective(&request.retry_policy, &self.default_retry_policy);
        let outcome = run_retry(transport, &request, &policy);
        match outcome.result {
            Ok(reply) => {
                let mut response = HttpResponse::new(reply);
                let post_n = chain.post_count();
                let mut j: usize = 0;
                while j < post_n
                    decreases post_n - j,
                {
                    chain.post_intercept(j, &mut response);
                    j += 1;
                }
                Ok(response)
            },
            Err(error) => Err(HttpError::Transport(error)),
        }
    }
}

} // verus!
