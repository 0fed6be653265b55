//! Session management and batch-download engine for the osu! beatmap service.
//!
//! The crate verifies the logic that is easy to get wrong: extracting
//! anti-forgery tokens and session cookies from raw `Set-Cookie` header
//! values, the two-step login cascade, the one-refresh retry policy of a
//! batch download, and the clamped progress accounting of a streamed file.
//! Network and disk I/O live outside the library; callers drive the state
//! machines defined here with the statuses, header values and byte counts
//! they observe.

pub mod cookie;
pub mod engine;
pub mod error;
pub mod mode;
pub mod num;
pub mod parse;
pub mod refresh;
pub mod request;
pub mod session;
pub mod text;
pub mod writer;
