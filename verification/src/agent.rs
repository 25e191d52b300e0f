//! The in-guest agent's library: the serial framing and message model, the
//! runner that turns step commands into reported results, and the agent's
//! own configuration.
pub mod comms;
pub mod config;
pub mod external_api;
pub mod internal_api;
pub mod model;
pub mod runner_engine;
