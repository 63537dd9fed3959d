//! The request-options surface handed through to the transport.
//!
//! The adapter never inspects these values; the transport glue around the
//! crate passes them to the host request as they are.

use vstd::prelude::*;

verus! {

/// Which referrer a request is sent with.
#[derive(Debug, Clone, PartialEq, Eq)]
pub enum Referrer {
    /// A same-origin URL as the referrer.
    SameOriginUrl(String),
    /// The `about:client` referrer.
    AboutClient,
    /// An empty referrer.
    Empty,
}

} // verus!
