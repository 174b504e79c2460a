//! Interception layer for an RPC server's request pipeline.
//!
//! The middleware observes every inbound request and every call inside a
//! batched request without altering their outcome: it counts requests per
//! transport in an exported prometheus counter and, when diagnostic levels
//! are active, renders correlated log lines for a call's start and its
//! completion.
//!
//! The asynchronous plumbing (installing this layer into an RPC engine's
//! pipeline, emitting the rendered lines) lives outside this crate; this
//! crate holds the decisions and the text they produce.

pub mod call;
pub mod metrics;
pub mod middleware;
pub mod text;

pub use call::{CallInfo, Id, OutputInfo, Severity};
pub use metrics::{RegistrationError, RpcMetrics};
pub use middleware::{on_call_finish, FinishLine, RpcMiddleware, StartLine, StartReport};
