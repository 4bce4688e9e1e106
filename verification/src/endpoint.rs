//! Options the HTTP publish surface accepts alongside a payload. The
//! HTTP layer itself is a thin translation that lives outside this
//! library; the options it parses are plain data and modeled here.
use vstd::prelude::*;

verus! {

/// Query options of a publish request.
pub struct PublishOptions {
    /// The payload model the device claims to follow, if any.
    pub model_id: Option<String>,
}

impl PublishOptions {
    /// Options with nothing set.
    pub fn new() -> (r: Self)
        ensures
            r.model_id is None,
    {
        PublishOptions { model_id: None }
    }
}

} // verus!
