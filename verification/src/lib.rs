//! Typed client library for a remote agent/task/memory-ledger API.
//!
//! The crate is organised around one shared request pipeline: it resolves
//! configuration, builds URLs and headers, serialises JSON bodies, decides
//! retries with exponential backoff, and classifies HTTP status codes into a
//! closed error taxonomy.  The three resource facades (agents, tasks, memory)
//! are thin consumers of that pipeline: each method assembles a request
//! descriptor that an unverified transport shell executes.

pub mod agents;
pub mod client;
pub mod errors;
pub mod json;
pub mod memory;
pub mod pipeline;
pub mod request;
pub mod tasks;
pub mod text;
pub mod types;

pub use agents::AgentAPI;
pub use client::BlackRoadClient;
pub use client::ClientConfig;
pub use errors::Error;
pub use errors::ErrorV;
pub use json::Json;
pub use json::JsonV;
pub use memory::MemoryAPI;
pub use pipeline::RetryStep;
pub use pipeline::SendOutcome;
pub use pipeline::classify_response;
pub use pipeline::max_retries_exceeded;
pub use pipeline::retry_step;
pub use request::DescriptorView;
pub use request::Method;
pub use request::RequestDescriptor;
pub use tasks::TaskAPI;
pub use text::dec_nat_text;
pub use text::int_text;
pub use types::AgentListOptions;
pub use types::DispatchTaskOptions;
pub use types::LogMemoryOptions;
pub use types::MemoryQueryOptions;
pub use types::RegisterAgentOptions;
pub use types::Stats;
pub use types::TaskListOptions;
pub use types::Timestamp;
pub use types::VerifyChainResult;
