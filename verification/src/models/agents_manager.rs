pub mod managing_agent;
pub mod managing_agent_laws;
