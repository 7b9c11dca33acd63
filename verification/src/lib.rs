//! Agent orchestration engine: a pipeline of model-backed agents that turns a
//! product request into generated, built and smoke-tested backend code.
//!
//! Everything that talks to the outside world (the language model, HTTP
//! probes, the build tool, the file system) is performed by the caller. The
//! library decides: each agent is a step function from the event that just
//! happened to the request that is due next.

pub mod agent_architect;
pub mod agent_backend;
pub mod agent_traits;
pub mod agent_unit_tester;
pub mod ai_functions;
pub mod basic_agent;
pub mod call_request;
pub mod command_line;
pub mod errors;
pub mod general;
pub mod llm;
pub mod managing_agent;
pub mod urls;
