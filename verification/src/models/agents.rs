pub mod agent_architect;
pub mod agent_backend;
pub mod agent_backend_laws;
pub mod agent_protocol;
pub mod agent_traits;
