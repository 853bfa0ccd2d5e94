//! A verified engine for a JSON-RPC tool-invocation protocol.
//!
//! The crate models the protocol over plain values: a request dispatcher
//! with a two-state session lifecycle, a closed registry of named tools,
//! and a shared key/value store mutated by the storage tools. Wire text
//! is produced by verified encoders; parsing of incoming JSON is
//! delegated to `serde_json` behind a small trusted boundary.

pub mod auth;
mod clock;
pub mod proto;
pub mod registry;
pub mod server;
pub mod store;
pub mod text;
pub mod tools;
pub mod wire;

pub use auth::bearer_ok;
pub use proto::ArgValue;
pub use proto::ErrBody;
pub use proto::Params;
pub use proto::ReqId;
pub use proto::Request;
pub use proto::Response;
pub use proto::Tool;
pub use proto::encode_response;
pub use registry::Registry;
pub use server::HostInfo;
pub use server::McpServer;
pub use store::KvStore;
pub use text::dec_i64;
pub use text::dec_u64;
pub use text::escape_json;
pub use tools::ToolCtx;
pub use tools::ToolError;
pub use tools::ToolHandler;
pub use tools::ToolKind;
pub use tools::get_all_tools;
pub use wire::RequestError;
