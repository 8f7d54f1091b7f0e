//! Client-side engine for a session-based UDP metadata-lookup protocol:
//! field-mask codec, per-command request encoding and response decoding,
//! a shared error taxonomy, inbound framing, and the tag-correlation and
//! session state machine that orchestrates dispatch.
use vstd::prelude::*;

pub mod anime;
pub mod auth;
pub mod engine;
pub mod errors;
pub mod file_lookup;
pub mod hashes;
pub mod mask;
pub mod strutil;
pub mod wire;
pub mod types;

verus! {

/// Default wire identifier this client presents to the server.
pub const CLIENT_NAME: &'static str = "anidbudprust";

/// Default client version presented on login.
pub const CLIENT_VERSION: i32 = 1;

/// Protocol version spoken by this implementation.
pub const API_VERSION: i32 = 3;

} // verus!
