//! The client facade: one value owning the bearer token and the shared rate
//! limiter, with the verified pieces that a driver composes into the two
//! operations — generate images from a prompt, and persist them to disk.

use vstd::prelude::*;

use crate::limiter::{spec_grant, RateLimiterState, PERMIT_INTERVAL_MS};
use crate::request::{render_request_body, spec_auth_header, spec_request_body_json, text2im_request, auth_header};
use crate::types::RequestBody;

verus! {

/// The client's state: the credential that authorizes every request, and
/// the limiter that paces task creation.
pub struct Dalle2 {
    pub access_token: String,
    pub limiter: RateLimiterState,
}

impl Dalle2 {
    /// A fresh client around a bearer token; its limiter grants the first
    /// permit at once.
    pub fn new(access_token: String) -> (c: Self)
        ensures
            c.access_token == access_token,
            c.limiter.next_free_ms == 0,
    {
        Dalle2 { access_token, limiter: RateLimiterState::new() }
    }

    /// The authorization header every request carries.
    pub fn bearer_header(&self) -> (r: String)
        ensures
            r@ == spec_auth_header(self.access_token@),
    {
        auth_header(self.access_token.as_str())
    }

    /// Asks the shared limiter for a task-creation permit at instant
    /// `now_ms`; the caller waits the returned time before dispatching.
    pub fn acquire_permit(&mut self, now_ms: u64) -> (wait_ms: u64)
        requires
            old(self).limiter.next_free_ms + PERMIT_INTERVAL_MS <= u64::MAX,
            now_ms + PERMIT_INTERVAL_MS <= u64::MAX,
        ensures
            final(self).access_token == old(self).access_token,
            now_ms + wait_ms == spec_grant(old(self).limiter.next_free_ms as int, now_ms as int),
            final(self).limiter.next_free_ms == spec_grant(
                old(self).limiter.next_free_ms as int,
                now_ms as int,
            ) + PERMIT_INTERVAL_MS,
    {
        self.limiter.acquire(now_ms)
    }

    /// The JSON body that submits a text-to-image task for a prompt and a
    /// batch size of at least one.
    pub fn submission_body(&self, prompt: &str, batch_size: u64) -> (r: String)
        requires
            batch_size >= 1,
        ensures
            r@ == spec_request_body_json("text2im"@, prompt@, batch_size as nat),
    {
        let body: RequestBody = text2im_request(prompt, batch_size);
        render_request_body(&body)
    }
}

} // verus!
