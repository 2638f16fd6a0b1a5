//! A service that runs Python for agents: sessions with their workers, jobs,
//! checkpoints, swarms, shared workspaces, tools, plans and billing. What it
//! decides and answers is here; what it does is left to its callers, who hand
//! back what came of it.
pub mod api;
pub mod billing;
pub mod clock;
pub mod codec;
pub mod creation;
pub mod db;
pub mod http;
pub mod ident;
pub mod json;
pub mod laws;
pub mod maintenance;
pub mod path;
pub mod readback;
pub mod runtime;
pub mod sandbox;
pub mod sql;
pub mod store;
pub mod text;
