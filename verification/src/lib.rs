//! Workflow orchestration for code-review agents, with the pure parts of an
//! image-compression tool.

pub mod agents;
pub mod config;
pub mod dag;
pub mod detection;
pub mod engine;
pub mod execution;
pub mod github;
pub mod inputs;
pub mod json;
pub mod mcp_tools;
pub mod model;
pub mod named_map;
pub mod outputs;
pub mod outside;
pub mod project_config;
pub mod project_detector;
pub mod recorder;
pub mod registry;
pub mod retry;
pub mod scheduler;
pub mod squeeze;
pub mod text;
pub mod validator;
pub mod workflows;
pub mod workflow_config;
