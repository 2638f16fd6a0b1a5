//! What each endpoint decides and answers.
pub mod auth;
pub mod checkout;
pub mod login;
pub mod mcp;
pub mod stragglers;
pub mod swarm;
pub mod swarm_run;
pub mod routes;
pub mod session_run;
pub mod tool_run;
pub mod workspace;
pub mod workspace_run;
pub mod billing;
