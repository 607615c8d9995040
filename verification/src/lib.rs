//! Verified core of a small feed-relay service.
//!
//! The service exposes one endpoint: given a `url` query parameter it fetches
//! that URL over HTTP, follows at most one redirect hop, reads the response
//! body under a hard size cap, hands the bytes to a feed decoder, and maps
//! every outcome onto a single well-defined HTTP response.
//!
//! All decision logic lives here and is verified: status classification, the
//! redirect state machine, the streaming body cap, query intake, and the
//! uniform mapping from fetch outcomes to service responses. The surrounding
//! process (sockets, the outbound HTTP client, the decoder) performs the I/O
//! and drives the state machine with events.

pub mod body;
pub mod cors;
pub mod http;
pub mod intake;
pub mod resolver;
