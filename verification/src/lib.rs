//! Verified core of a small JSON-RPC language-intelligence endpoint.
//!
//! The crate models the two load-bearing pieces of such a server: the
//! protocol lifecycle state machine that gates which requests are legal at
//! which point in a connection's life, and the interception middleware that
//! observes every call without altering its outcome. Around them stand the
//! capability negotiator and the feature handlers (completion, resolve,
//! hover). Transport framing, the async executor and the log sink are
//! collaborators outside this crate; they exchange plain values with it.

pub mod capabilities;
pub mod lifecycle;
pub mod middleware;
pub mod handlers;
pub mod protocol;
