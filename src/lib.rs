//! Session orchestration for a peer-to-peer chat client: exactly-once capture
//! of submitted input, the connection handshake, the registry of connected
//! peers and the tick that merges all of it into an ordered chat log.

pub mod input;
pub mod registry;
pub mod ui;
pub mod session;
pub mod coordinator;
