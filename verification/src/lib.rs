//! A multiplayer turn-based chess session manager: boards and games backed
//! by an external move-legality oracle, a session state machine with join,
//! turn-taking, forfeit and chat, and an in-memory store of many
//! simultaneous sessions behind a request/response surface.

pub mod errors;
pub mod game;
pub mod laws;
pub mod oracle;
pub mod session;
pub mod service;
pub mod store;
