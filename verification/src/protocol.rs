//! The decisions of the submission and polling protocol: which creation
//! responses yield a task handle, and which status snapshots end the poll
//! loop.

use vstd::prelude::*;
use vstd::string::StringExecFns;

use crate::types::{Dalle2ImgData, Dalle2Response, Dalle2TaskResponse};

verus! {

/// How long a driver rests between two status queries, in milliseconds:
/// polling is paced instead of spinning against the service.
pub const POLL_INTERVAL_MS: u64 = 1000;

/// A status snapshot ends the poll loop exactly when its status reads
/// `succeeded` and it carries generation data.
pub open spec fn spec_poll_done(resp: Dalle2TaskResponse) -> bool {
    resp.status@ == "succeeded"@ && resp.generations is Some
}

/// Accepts a task-creation response: a well-formed response carries a
/// non-empty task identifier, which becomes the handle for polling.
/// An empty identifier is rejected.
pub fn accept_submission(resp: &Dalle2Response) -> (r: Option<String>)
    ensures
        r is Some <==> resp.id@.len() > 0,
        r is Some ==> r.unwrap()@ == resp.id@ && r.unwrap()@.len() > 0,
{
    if resp.id.as_str().is_empty() {
        None
    } else {
        Some(resp.id.clone())
    }
}

/// Decides one round of the poll loop: returns the generated images exactly
/// when the snapshot says the task succeeded and the generations are present;
/// on any other combination the caller must ask again.
pub fn poll_step(resp: Dalle2TaskResponse) -> (r: Option<Vec<Dalle2ImgData>>)
    ensures
        r is Some <==> spec_poll_done(resp),
        spec_poll_done(resp) ==> r.unwrap() == resp.generations.unwrap().data,
{
    let succeeded = String::from_str("succeeded");
    if resp.status == succeeded {
        match resp.generations {
            Some(g) => Some(g.data),
            None => None,
        }
    } else {
        None
    }
}

} // verus!
