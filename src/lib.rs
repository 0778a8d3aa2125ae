//! Orchestration core of a pooled chat-protocol client: which session hosts
//! which channel, where each outbound command goes, and when the pool grows.

pub mod channel_map;
pub mod message;
pub mod placement;
pub mod pool;

pub use message::{BootstrapCommand, ClientMessage, ConfigError, EventChannelError, PoolError};
pub use placement::choose_session;
pub use pool::{CloseStep, ConnectionPool, PoolConfig, Route};
