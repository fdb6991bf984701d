//! A uniform connection abstraction over length-prefixed TCP/KCP framing and
//! WebSocket, with the per-connection engine written as a verified state
//! machine: the host performs I/O and feeds events, the engine decides.

pub mod message;
pub mod error;
pub mod settings;
pub mod buffer;
pub mod codec;
pub mod engine;
pub mod online_count;
pub mod id_center;
pub mod builder;
pub mod handshake;
pub mod sender;
pub mod ws_state;
pub mod ws_engine;
pub mod transport;
pub mod ws_frame;
