//! The pool's serialized state and its decisions: where each command goes, when a
//! session is added, and how a close walks the sessions.

use fnv::FnvHashMap;
use vstd::prelude::*;

use crate::channel_map::{channel_map_contents, channel_map_get, channel_map_insert, empty_channel_map};
use crate::message::{BootstrapCommand, ClientMessage, ConfigError, PoolError};
use crate::placement::{choose_session, has_eligible, is_placement, lemma_placement_spec, placement};

verus! {

/// Connection pool settings.
#[derive(Clone, Copy, Debug)]
pub struct PoolConfig {
    /// Number of sessions opened when the pool starts; the first one carries whispers.
    pub init_connections: u32,
    /// Intended upper bound on the number of sessions. It is advisory: joins may
    /// still open sessions beyond it.
    pub connection_limit: u32,
    /// Largest joined-channel count at which a session still takes new joins.
    pub threshold: u32,
}

/// What the pool does with one command.
#[derive(Debug, PartialEq, Eq)]
pub enum Route {
    /// Hand the message to the session at this index and relay its response.
    Send(usize, ClientMessage),
    /// Hand the join of this channel, which no live session holds, to the existing
    /// session at this index, relay its response, and record the channel there with
    /// `channel_placed`.
    Place(usize, String, ClientMessage),
    /// Answer the caller with this error; nothing is sent.
    Reject(PoolError),
    /// Open a new session, hand it the join of this channel, and then record the
    /// session with `session_opened`; if opening fails, answer
    /// `PoolError::NewConnectionFailed`.
    Open(String, ClientMessage),
    /// Send a close command to the sessions one by one, as `close_next` directs.
    CloseAll,
}

/// The next move of a close that walks the sessions.
#[derive(Debug, PartialEq, Eq)]
pub enum CloseStep<E> {
    /// Send a close command to the session at this index.
    Close(usize),
    /// The walk is over: `Ok` once every session took its close, else the first failure.
    Finish(Result<(), E>),
}

/// The state the pool's single owner mutates: the sessions, by index, and the
/// session each joined channel was placed on. Session 0 is the whisper session.
pub struct ConnectionPool {
    session_count: usize,
    channels: FnvHashMap<String, usize>,
    threshold: u32,
}

impl ConnectionPool {
    /// The number of live sessions.
    pub closed spec fn count(&self) -> nat {
        self.session_count as nat
    }

    /// The channel map: each recorded channel with the index of its session.
    pub closed spec fn channel_map(&self) -> Map<Seq<char>, usize> {
        channel_map_contents(self.channels)
    }

    /// The joined-channel count up to which a session takes new joins.
    pub closed spec fn threshold_spec(&self) -> u32 {
        self.threshold
    }

    /// Every session index in the channel map names a live session, and the
    /// whisper session exists.
    pub closed spec fn wf(&self) -> bool {
        &&& self.session_count >= 1
        &&& forall|c: Seq<char>| #[trigger] self.channel_map().contains_key(c) ==> self.channel_map()[c] < self.session_count
    }

    /// The live session a channel is routed to, if any.
    pub open spec fn lookup(&self, channel: Seq<char>) -> Option<usize> {
        if self.channel_map().contains_key(channel) && self.channel_map()[channel] < self.count() {
            Some(self.channel_map()[channel])
        } else {
            None
        }
    }

    /// A channel-scoped command goes to the channel's session, or comes back unsent.
    pub open spec fn to_channel(&self, channel: Seq<char>, msg: ClientMessage) -> Route {
        match self.lookup(channel) {
            Some(i) => Route::Send(i, msg),
            None => Route::Reject(PoolError::ChannelNotJoined(msg)),
        }
    }

    /// Where a command goes, given the joined-channel count of each session.
    pub open spec fn route_spec(&self, msg: ClientMessage, counts: Seq<usize>) -> Route {
        match msg {
            ClientMessage::PrivMsg { channel, .. } => self.to_channel(channel@, msg),
            ClientMessage::Part(channel) => self.to_channel(channel@, msg),
            ClientMessage::Whisper { .. } => Route::Send(0, msg),
            ClientMessage::Ping => Route::Send(0, msg),
            ClientMessage::Pong => Route::Send(0, msg),
            ClientMessage::Join(channel) => match self.lookup(channel@) {
                Some(i) => Route::Send(i, msg),
                None => match placement(counts, self.threshold_spec()) {
                    Some(i) => Route::Place(i as usize, channel, msg),
                    None => Route::Open(channel, msg),
                },
            },
            ClientMessage::Nick(_) => Route::Reject(PoolError::UnsupportedMessage(BootstrapCommand::Nick)),
            ClientMessage::Pass(_) => Route::Reject(PoolError::UnsupportedMessage(BootstrapCommand::Pass)),
            ClientMessage::CapRequest(_) => Route::Reject(
                PoolError::UnsupportedMessage(BootstrapCommand::CapRequest),
            ),
            ClientMessage::Close => Route::CloseAll,
        }
    }

    /// Set up the pool state for `config.init_connections` freshly opened sessions,
    /// with no channel recorded.
    pub fn new(config: &PoolConfig) -> (r: Result<ConnectionPool, ConfigError>)
        ensures
            config.init_connections == 0 <==> r is Err,
            r matches Err(e) ==> e == ConfigError::NoInitialConnections,
            r matches Ok(p) ==> {
                &&& p.wf()
                &&& p.count() == config.init_connections
                &&& p.channel_map().dom() == Set::<Seq<char>>::empty()
                &&& p.threshold_spec() == config.threshold
            },
    {
        if config.init_connections == 0 {
            return Err(ConfigError::NoInitialConnections);
        }
        Ok(ConnectionPool {
            session_count: config.init_connections as usize,
            channels: empty_channel_map(),
            threshold: config.threshold,
        })
    }

    /// The number of live sessions.
    pub fn session_count(&self) -> (r: usize)
        ensures
            r == self.count(),
    {
        self.session_count
    }

    /// The joined-channel count up to which a session takes new joins.
    pub fn threshold(&self) -> (r: u32)
        ensures
            r == self.threshold_spec(),
    {
        self.threshold
    }

    /// The live session a channel is routed to, if any.
    pub fn channel_session(&self, channel: &str) -> (r: Option<usize>)
        requires
            self.wf(),
        ensures
            r == self.lookup(channel@),
    {
        match channel_map_get(&self.channels, channel) {
            Some(i) => {
                if i < self.session_count {
                    Some(i)
                } else {
                    None
                }
            },
            None => None,
        }
    }

    fn to_channel_route(&self, channel: &String, msg: ClientMessage) -> (r: Route)
        requires
            self.wf(),
        ensures
            r == self.to_channel(channel@, msg),
    {
        match self.channel_session(channel.as_str()) {
            Some(i) => Route::Send(i, msg),
            None => Route::Reject(PoolError::ChannelNotJoined(msg)),
        }
    }

    /// Decide what to do with one command. `counts` holds the joined-channel count
    /// of each session, read when the command is taken up; only an unrecorded join
    /// consults it.
    pub fn route(&self, msg: ClientMessage, counts: &Vec<usize>) -> (r: Route)
        requires
            self.wf(),
            msg is Join ==> counts@.len() == self.count(),
        ensures
            r == self.route_spec(msg, counts@),
            r matches Route::Send(i, _) ==> i < self.count(),
            r matches Route::Place(i, _, _) ==> i < self.count(),
    {
        proof {
            lemma_placement_spec(counts@, self.threshold);
        }
        match &msg {
            ClientMessage::PrivMsg { channel, .. } => {
                let channel = channel.clone();
                self.to_channel_route(&channel, msg)
            },
            ClientMessage::Part(channel) => {
                let channel = channel.clone();
                self.to_channel_route(&channel, msg)
            },
            ClientMessage::Whisper { .. } => Route::Send(0, msg),
            ClientMessage::Ping => Route::Send(0, msg),
            ClientMessage::Pong => Route::Send(0, msg),
            ClientMessage::Join(channel) => {
                match self.channel_session(channel.as_str()) {
                    Some(i) => Route::Send(i, msg),
                    None => match choose_session(counts, self.threshold) {
                        Some(i) => {
                            let channel = channel.clone();
                            Route::Place(i, channel, msg)
                        },
                        None => {
                            let channel = channel.clone();
                            Route::Open(channel, msg)
                        },
                    },
                }
            },
            ClientMessage::Nick(_) => Route::Reject(PoolError::UnsupportedMessage(BootstrapCommand::Nick)),
            ClientMessage::Pass(_) => Route::Reject(PoolError::UnsupportedMessage(BootstrapCommand::Pass)),
            ClientMessage::CapRequest(_) => Route::Reject(
                PoolError::UnsupportedMessage(BootstrapCommand::CapRequest),
            ),
            ClientMessage::Close => Route::CloseAll,
        }
    }

    /// Record a session that a join opened: it becomes the last session, and the
    /// join's channel maps to it, whether or not the join itself went through.
    pub fn session_opened(&mut self, channel: String) -> (r: usize)
        requires
            old(self).wf(),
            old(self).count() < usize::MAX,
        ensures
            final(self).wf(),
            r == old(self).count(),
            final(self).count() == old(self).count() + 1,
            final(self).channel_map() == old(self).channel_map().insert(channel@, r),
            final(self).threshold_spec() == old(self).threshold_spec(),
    {
        let r = self.session_count;
        channel_map_insert(&mut self.channels, channel, r);
        self.session_count = r + 1;
        assert forall|c: Seq<char>| #[trigger] self.channel_map().contains_key(c) implies self.channel_map()[c] < self.session_count by {
            if c != channel@ {
                assert(old(self).channel_map().contains_key(c));
            }
        }
        r
    }

    /// Record the session that a join of a new channel was placed on. Like
    /// `session_opened`, this records the channel whether or not the join itself
    /// went through.
    pub fn channel_placed(&mut self, channel: String, session: usize)
        requires
            old(self).wf(),
            session < old(self).count(),
        ensures
            final(self).wf(),
            final(self).count() == old(self).count(),
            final(self).channel_map() == old(self).channel_map().insert(channel@, session),
            final(self).threshold_spec() == old(self).threshold_spec(),
    {
        channel_map_insert(&mut self.channels, channel, session);
        assert forall|c: Seq<char>| #[trigger] self.channel_map().contains_key(c) implies self.channel_map()[c] < self.session_count by {
            if c != channel@ {
                assert(old(self).channel_map().contains_key(c));
            }
        }
    }

    /// The next move of a close over all sessions. `attempted` is how many sessions
    /// were sent a close so far, and `last` the outcome of the latest one (`Ok(())`
    /// to start). The walk stops at the first failure, so later sessions are not
    /// sent a close.
    pub fn close_next<E>(&self, attempted: usize, last: Result<(), E>) -> (r: CloseStep<E>)
        ensures
            r == (match last {
                Err(e) => CloseStep::Finish(Err(e)),
                Ok(()) => if attempted < self.count() {
                    CloseStep::Close(attempted)
                } else {
                    CloseStep::Finish(Ok(()))
                },
            }),
    {
        match last {
            Err(e) => CloseStep::Finish(Err(e)),
            Ok(()) => {
                if attempted < self.session_count {
                    CloseStep::Close(attempted)
                } else {
                    CloseStep::Finish(Ok(()))
                }
            },
        }
    }
}

/// A join of a channel with no live session is sticky: once the session it was
/// placed on, or opened for it, is recorded, every later join, message and part of
/// that channel goes to that same session, whatever the sessions' counts, and no
/// session is opened for it.
pub proof fn lemma_join_sticks(
    before: ConnectionPool,
    after: ConnectionPool,
    channel: String,
    session: usize,
    first_counts: Seq<usize>,
    later_counts: Seq<usize>,
    text: String,
)
    requires
        before.wf(),
        first_counts.len() == before.count(),
        ({
            ||| before.route_spec(ClientMessage::Join(channel), first_counts) == Route::Place(
                session,
                channel,
                ClientMessage::Join(channel),
            ) && after.count() == before.count()
            ||| before.route_spec(ClientMessage::Join(channel), first_counts) == Route::Open(
                channel,
                ClientMessage::Join(channel),
            ) && session == before.count() && after.count() == before.count() + 1
        }),
        after.channel_map() == before.channel_map().insert(channel@, session),
    ensures
        after.route_spec(ClientMessage::Join(channel), later_counts) == Route::Send(
            session,
            ClientMessage::Join(channel),
        ),
        after.route_spec(ClientMessage::PrivMsg { channel, message: text }, later_counts)
            == Route::Send(session, ClientMessage::PrivMsg { channel, message: text }),
        after.route_spec(ClientMessage::Part(channel), later_counts) == Route::Send(
            session,
            ClientMessage::Part(channel),
        ),
{
    lemma_placement_spec(first_counts, before.threshold_spec());
    assert(after.channel_map().contains_key(channel@));
    assert(session < after.count());
}

/// A join of a channel with no live session goes to an existing session exactly when
/// some session holds at most `threshold` channels, and then to an eligible one with
/// the fewest; otherwise it opens a new session.
pub proof fn lemma_join_scales_when_full(pool: ConnectionPool, channel: String, counts: Seq<usize>)
    requires
        pool.wf(),
        pool.lookup(channel@) is None,
        counts.len() == pool.count(),
    ensures
        pool.route_spec(ClientMessage::Join(channel), counts) is Place <==> has_eligible(counts, pool.threshold_spec()),
        pool.route_spec(ClientMessage::Join(channel), counts) matches Route::Place(i, c, m) ==> {
            &&& i < pool.count()
            &&& is_placement(counts, pool.threshold_spec(), i as int)
            &&& c == channel
            &&& m == ClientMessage::Join(channel)
        },
        !has_eligible(counts, pool.threshold_spec()) ==> pool.route_spec(ClientMessage::Join(channel), counts)
            == Route::Open(channel, ClientMessage::Join(channel)),
{
    lemma_placement_spec(counts, pool.threshold_spec());
    if let Some(i) = placement(counts, pool.threshold_spec()) {
        assert(0 <= i < counts.len());
        assert(i as usize as int == i);
    }
}

/// A channel message or a part for a channel with no live session is answered with
/// `ChannelNotJoined`, which carries the command back unchanged; nothing is sent.
pub proof fn lemma_unjoined_rejected(pool: ConnectionPool, msg: ClientMessage, counts: Seq<usize>)
    requires
        match msg {
            ClientMessage::PrivMsg { channel, .. } => pool.lookup(channel@) is None,
            ClientMessage::Part(channel) => pool.lookup(channel@) is None,
            _ => false,
        },
    ensures
        pool.route_spec(msg, counts) == Route::Reject(PoolError::ChannelNotJoined(msg)),
{
}

/// Nick, pass and capability requests are always refused as unsupported, whatever
/// the pool holds.
pub proof fn lemma_bootstrap_rejected(pool: ConnectionPool, msg: ClientMessage, counts: Seq<usize>)
    requires
        msg is Nick || msg is Pass || msg is CapRequest,
    ensures
        pool.route_spec(msg, counts) matches Route::Reject(PoolError::UnsupportedMessage(_)),
{
}

} // verus!
