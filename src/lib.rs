//! Host-side logic for driving an agent process over the agent client
//! protocol: the session worker's decisions, the callbacks the agent invokes
//! on the host, and the session records the host keeps.
pub mod client;
pub mod content;
pub mod event_bus;
pub mod session_store;
pub mod text;
pub mod worker;
