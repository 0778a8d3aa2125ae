//! Commands that callers submit to the pool, and the errors the pool answers with.

use vstd::prelude::*;

verus! {

/// A command for the remote service, as submitted to the pool.
#[derive(Clone, Debug, PartialEq, Eq)]
pub enum ClientMessage {
    /// A message to everyone in a channel.
    PrivMsg { channel: String, message: String },
    /// A private message to one user.
    Whisper { receiver: String, message: String },
    Ping,
    Pong,
    /// Leave a channel.
    Part(String),
    /// Enter a channel.
    Join(String),
    /// Set the nickname; only sent while a session is set up.
    Nick(String),
    /// Authenticate; only sent while a session is set up.
    Pass(String),
    /// Ask for protocol capabilities; only sent while a session is set up.
    CapRequest(Vec<String>),
    /// Shut down every session of the pool.
    Close,
}

/// A command that belongs to session setup and that the pool never forwards.
#[derive(Clone, Copy, Debug, PartialEq, Eq, Structural)]
pub enum BootstrapCommand {
    Nick,
    Pass,
    CapRequest,
}

impl BootstrapCommand {
    /// Why the pool refuses this command.
    pub fn reason(&self) -> (r: &'static str)
        ensures
            r@ == (match *self {
                BootstrapCommand::Nick => "NICK is sent automatically in managed connection pools."@,
                BootstrapCommand::Pass => "PASS is sent automatically in managed connection pools."@,
                BootstrapCommand::CapRequest => "CAP REQs are sent automatically in managed connection pools."@,
            }),
    {
        match self {
            BootstrapCommand::Nick => "NICK is sent automatically in managed connection pools.",
            BootstrapCommand::Pass => "PASS is sent automatically in managed connection pools.",
            BootstrapCommand::CapRequest => "CAP REQs are sent automatically in managed connection pools.",
        }
    }
}

/// An answer the pool gives a caller on its own, without a session's response.
#[derive(Clone, Debug, PartialEq, Eq)]
pub enum PoolError {
    /// The command names a channel that no live session has joined; the command
    /// comes back unchanged.
    ChannelNotJoined(ClientMessage),
    /// The command is part of session setup and is refused.
    UnsupportedMessage(BootstrapCommand),
    /// A join needed a new session and opening it failed.
    NewConnectionFailed(String),
}

/// Why a pool cannot be set up.
#[derive(Clone, Copy, Debug, PartialEq, Eq, Structural)]
pub enum ConfigError {
    /// `init_connections` was zero: the pool needs a first session for whispers.
    NoInitialConnections,
}

/// Why an event subscription ended.
#[derive(Clone, Copy, Debug, PartialEq, Eq, Structural)]
pub enum EventChannelError {
    /// No session is left to send events.
    Closed,
    /// The subscriber fell behind and buffered events were lost.
    Overflow,
}

} // verus!
