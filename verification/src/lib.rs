//! Runtime core of an agent-orchestration server: task state machines,
//! tool registry and policy engine, artifact path authorization, sandbox
//! configuration, decision merging, event replay, canonical JSON, schema
//! checks, backend selection, the review pipeline, the agent session
//! protocol and the JSON-RPC worker protocol. The host drives I/O (the
//! audit database, processes, stdio) and hands results back as values.

pub mod text;
pub mod timing;
pub mod state;
pub mod basic_state;
pub mod artifact;
pub mod policy;
pub mod sandbox;
pub mod json;
pub mod storage;
pub mod kernel;
pub mod basic_kernel;
pub mod replay;
pub mod canonical;
pub mod tools;
pub mod config;
pub mod profile;
pub mod backend;
pub mod context;
pub mod review;
pub mod reasonix;
pub mod duplicate_keys;
pub mod schema;
pub mod pipeline;
pub mod worker;
pub mod export;
