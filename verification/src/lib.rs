//! A capability bridge for an embedded, sandboxed script engine.
//!
//! Script code running inside the engine has no native access to entropy
//! sources or network sockets.  This library is the sole conduit: it
//! validates script-supplied buffer windows, fills them with bytes from the
//! host entropy source, and decodes and answers structured fetch requests,
//! all across a narrow binary boundary where offsets and lengths arrive
//! untrusted.

pub mod crypto;
pub mod errors;
pub mod fetch_io;
pub mod json;
pub mod slice;
