use chat_pool::{
    choose_session, BootstrapCommand, ClientMessage, CloseStep, ConfigError, ConnectionPool,
    PoolConfig, PoolError, Route,
};

fn pool(init: u32, threshold: u32) -> ConnectionPool {
    ConnectionPool::new(&PoolConfig {
        init_connections: init,
        connection_limit: 10,
        threshold,
    })
    .unwrap()
}

fn join(c: &str) -> ClientMessage {
    ClientMessage::Join(c.to_string())
}

#[test]
fn zero_initial_connections_is_refused() {
    let r = ConnectionPool::new(&PoolConfig {
        init_connections: 0,
        connection_limit: 5,
        threshold: 3,
    });
    assert!(matches!(r, Err(ConfigError::NoInitialConnections)));
}

#[test]
fn new_pool_has_initial_sessions() {
    let p = pool(3, 7);
    assert_eq!(p.session_count(), 3);
    assert_eq!(p.threshold(), 7);
    assert_eq!(p.channel_session("any"), None);
}

#[test]
fn single_session_threshold_zero_scenario() {
    let mut p = pool(1, 0);
    // the whisper session holds no channel yet, so it takes the first join
    assert_eq!(
        p.route(join("chan1"), &vec![0]),
        Route::Place(0, "chan1".to_string(), join("chan1"))
    );
    p.channel_placed("chan1".to_string(), 0);
    assert_eq!(p.channel_session("chan1"), Some(0));
    assert_eq!(p.session_count(), 1);
    // joining it again stays on the whisper session
    assert_eq!(p.route(join("chan1"), &vec![1]), Route::Send(0, join("chan1")));
    // now the only session is over the threshold: a second session is needed
    assert_eq!(
        p.route(join("chan2"), &vec![1]),
        Route::Open("chan2".to_string(), join("chan2"))
    );
    assert_eq!(p.session_opened("chan2".to_string()), 1);
    assert_eq!(p.session_count(), 2);
    assert_eq!(p.route(join("chan2"), &vec![1, 1]), Route::Send(1, join("chan2")));
}

#[test]
fn rejoin_goes_to_the_opened_session() {
    let mut p = pool(2, 1);
    assert_eq!(
        p.route(join("a"), &vec![2, 5]),
        Route::Open("a".to_string(), join("a"))
    );
    let idx = p.session_opened("a".to_string());
    assert_eq!(idx, 2);
    assert_eq!(p.channel_session("a"), Some(2));
    assert_eq!(p.route(join("a"), &vec![0, 0, 9]), Route::Send(2, join("a")));
    assert_eq!(p.route(join("a"), &vec![9, 9, 9]), Route::Send(2, join("a")));
    assert_eq!(p.session_count(), 3);
}

#[test]
fn join_uses_existing_session_iff_one_is_under_threshold() {
    let p = pool(3, 4);
    assert_eq!(
        p.route(join("x"), &vec![5, 4, 9]),
        Route::Place(1, "x".to_string(), join("x"))
    );
    assert_eq!(
        p.route(join("x"), &vec![5, 6, 9]),
        Route::Open("x".to_string(), join("x"))
    );
}

#[test]
fn placement_picks_fewest_then_first() {
    assert_eq!(choose_session(&vec![3, 1, 1], 5), Some(1));
    assert_eq!(choose_session(&vec![3, 1, 1], 5), Some(1));
    assert_eq!(choose_session(&vec![2, 2, 2], 2), Some(0));
    assert_eq!(choose_session(&vec![9, 4, 2, 7], 5), Some(2));
    assert_eq!(choose_session(&vec![9, 6, 7], 5), None);
    assert_eq!(choose_session(&vec![], 5), None);
    assert_eq!(choose_session(&vec![0], 0), Some(0));
}

#[test]
fn message_to_unjoined_channel_comes_back() {
    let p = pool(2, 3);
    let m = ClientMessage::PrivMsg {
        channel: "room".to_string(),
        message: "hello".to_string(),
    };
    assert_eq!(
        p.route(m.clone(), &vec![0, 0]),
        Route::Reject(PoolError::ChannelNotJoined(m))
    );
    let part = ClientMessage::Part("room".to_string());
    assert_eq!(
        p.route(part.clone(), &vec![0, 0]),
        Route::Reject(PoolError::ChannelNotJoined(part))
    );
}

#[test]
fn message_to_recorded_channel_goes_to_its_session() {
    let mut p = pool(1, 0);
    p.session_opened("room".to_string());
    let m = ClientMessage::PrivMsg {
        channel: "room".to_string(),
        message: "hi".to_string(),
    };
    assert_eq!(p.route(m.clone(), &vec![1, 1]), Route::Send(1, m));
    let part = ClientMessage::Part("room".to_string());
    assert_eq!(p.route(part.clone(), &vec![1, 1]), Route::Send(1, part));
}

#[test]
fn whisper_and_keepalive_go_to_first_session() {
    let mut p = pool(2, 0);
    p.session_opened("c".to_string());
    let w = ClientMessage::Whisper {
        receiver: "bob".to_string(),
        message: "psst".to_string(),
    };
    assert_eq!(p.route(w.clone(), &vec![3, 3, 3]), Route::Send(0, w));
    assert_eq!(p.route(ClientMessage::Ping, &vec![]), Route::Send(0, ClientMessage::Ping));
    assert_eq!(p.route(ClientMessage::Pong, &vec![]), Route::Send(0, ClientMessage::Pong));
}

#[test]
fn bootstrap_commands_are_unsupported() {
    let mut p = pool(1, 5);
    p.session_opened("c".to_string());
    assert_eq!(
        p.route(ClientMessage::Nick("me".to_string()), &vec![0, 0]),
        Route::Reject(PoolError::UnsupportedMessage(BootstrapCommand::Nick))
    );
    assert_eq!(
        p.route(ClientMessage::Pass("SECRET-REDACTED".to_string()), &vec![0, 0]),
        Route::Reject(PoolError::UnsupportedMessage(BootstrapCommand::Pass))
    );
    assert_eq!(
        p.route(ClientMessage::CapRequest(vec!["tags".to_string()]), &vec![0, 0]),
        Route::Reject(PoolError::UnsupportedMessage(BootstrapCommand::CapRequest))
    );
    assert_eq!(
        BootstrapCommand::Nick.reason(),
        "NICK is sent automatically in managed connection pools."
    );
    assert_eq!(
        BootstrapCommand::CapRequest.reason(),
        "CAP REQs are sent automatically in managed connection pools."
    );
}

#[test]
fn close_walks_all_sessions() {
    let p = pool(2, 0);
    assert_eq!(p.route(ClientMessage::Close, &vec![0, 0]), Route::CloseAll);
    assert_eq!(p.close_next::<String>(0, Ok(())), CloseStep::Close(0));
    assert_eq!(p.close_next::<String>(1, Ok(())), CloseStep::Close(1));
    assert_eq!(p.close_next::<String>(2, Ok(())), CloseStep::Finish(Ok(())));
}

#[test]
fn close_stops_at_first_failure() {
    let p = pool(3, 0);
    assert_eq!(p.close_next::<String>(0, Ok(())), CloseStep::Close(0));
    assert_eq!(p.close_next::<String>(1, Ok(())), CloseStep::Close(1));
    // the second session failed: the third is never sent a close
    assert_eq!(
        p.close_next(2, Err("gone".to_string())),
        CloseStep::Finish(Err("gone".to_string()))
    );
}

#[test]
fn channel_map_keeps_each_channel() {
    let mut p = pool(1, 0);
    assert_eq!(p.session_opened("a".to_string()), 1);
    assert_eq!(p.session_opened("b".to_string()), 2);
    assert_eq!(p.channel_session("a"), Some(1));
    assert_eq!(p.channel_session("b"), Some(2));
    assert_eq!(p.channel_session("c"), None);
    assert_eq!(p.session_opened("a".to_string()), 3);
    assert_eq!(p.channel_session("a"), Some(3));
}

#[test]
fn placed_channel_sticks_to_its_session() {
    let mut p = pool(2, 5);
    assert_eq!(
        p.route(join("a"), &vec![0, 0]),
        Route::Place(0, "a".to_string(), join("a"))
    );
    p.channel_placed("a".to_string(), 0);
    // session 1 now has fewer channels, yet the channel stays where it was placed
    assert_eq!(p.route(join("a"), &vec![1, 0]), Route::Send(0, join("a")));
    assert_eq!(p.route(join("a"), &vec![9, 9]), Route::Send(0, join("a")));
    let m = ClientMessage::PrivMsg {
        channel: "a".to_string(),
        message: "hey".to_string(),
    };
    assert_eq!(p.route(m.clone(), &vec![]), Route::Send(0, m));
    let part = ClientMessage::Part("a".to_string());
    assert_eq!(p.route(part.clone(), &vec![]), Route::Send(0, part));
    assert_eq!(p.session_count(), 2);
}
