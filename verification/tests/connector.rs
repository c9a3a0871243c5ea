use bytes::Bytes;
use misskey_ltl::connector::{Action, Backoff, Connector, Event, Phase};
use misskey_ltl::misskey::{MisskeyNote, MisskeyUser};

fn note() -> MisskeyNote {
    MisskeyNote {
        id: "n1".to_string(),
        text: Some("x".to_string()),
        created_at: String::new(),
        user: MisskeyUser {
            name: String::new(),
            username: String::new(),
            avatar_url: String::new(),
        },
    }
}

fn listening() -> Connector {
    let (connector, _) = Connector::start(None);
    let (connector, _) = connector.step(Event::Connected);
    let (connector, action) = connector.step(Event::Sent);
    assert!(matches!(action, Action::Listen));
    connector
}

fn rest(action: Action) -> u64 {
    match action {
        Action::Rest(ms) => ms,
        _ => panic!("no rest"),
    }
}

#[test]
fn starts_by_connecting() {
    let (connector, action) = Connector::start(Some("t".to_string()));
    assert_eq!(connector.phase(), Phase::Connecting);
    assert_eq!(connector.backoff(), Backoff { attempts: 0, delay_ms: 1000 });
    assert!(matches!(action, Action::Connect(url) if url == "wss://misskey.io/streaming?i=t"));
}

#[test]
fn joins_the_timeline_and_listens() {
    let (connector, _) = Connector::start(None);
    let (connector, action) = connector.step(Event::Connected);
    assert_eq!(connector.phase(), Phase::Subscribing);
    match action {
        Action::Subscribe(message) => assert_eq!(message.body.channel, "localTimeline"),
        _ => panic!("no subscription"),
    }
    let (connector, action) = connector.step(Event::Sent);
    assert_eq!(connector.phase(), Phase::Listening);
    assert!(matches!(action, Action::Listen));
}

#[test]
fn rests_grow_in_an_outage() {
    let (mut connector, _) = Connector::start(None);
    let mut rests: Vec<u64> = Vec::new();
    for n in 0..23usize {
        assert_eq!(connector.backoff().attempts, n % 11);
        let (next, action) = connector.step(Event::ConnectError);
        rests.push(rest(action));
        assert_eq!(next.phase(), Phase::Resting);
        let (next, action) = next.step(Event::Rested);
        assert!(matches!(action, Action::Connect(url) if url == "wss://misskey.io/streaming"));
        connector = next;
    }
    let mut expected: Vec<u64> = vec![1000, 2000, 4000, 8000, 16000, 30000, 30000, 30000, 30000, 30000, 60000];
    expected.extend([30000; 10]);
    expected.push(60000);
    expected.push(30000);
    assert_eq!(rests, expected);
}

#[test]
fn connection_wipes_out_failures() {
    let (mut connector, _) = Connector::start(None);
    for _ in 0..4 {
        connector = connector.step(Event::ConnectError).0.step(Event::Rested).0;
    }
    assert_eq!(connector.backoff(), Backoff { attempts: 4, delay_ms: 16000 });
    let (connector, _) = connector.step(Event::Connected);
    assert_eq!(connector.backoff(), Backoff::new());
}

#[test]
fn failed_subscription_rests_the_initial_delay() {
    let (connector, _) = Connector::start(None);
    let (connector, _) = connector.step(Event::Connected);
    let (connector, action) = connector.step(Event::SendError);
    assert_eq!(rest(action), 1000);
    assert_eq!(connector.phase(), Phase::Resting);
    assert_eq!(connector.backoff(), Backoff { attempts: 0, delay_ms: 1000 });
}

#[test]
fn short_session_counts_as_a_failure() {
    let (connector, action) = listening().step(Event::Ended);
    assert!(matches!(action, Action::MeasureUptime));
    let (connector, action) = connector.step(Event::Uptime(9));
    assert_eq!(rest(action), 2000);
    assert_eq!(connector.backoff(), Backoff { attempts: 1, delay_ms: 2000 });
    let (connector, _) = connector.step(Event::Rested);
    let (connector, action) = connector.step(Event::ConnectError);
    assert_eq!(rest(action), 2000);
    assert_eq!(connector.backoff(), Backoff { attempts: 2, delay_ms: 4000 });
}

#[test]
fn rests_grow_in_an_outage_after_a_short_session() {
    let mut connector = listening().step(Event::Ended).0.step(Event::Uptime(0)).0.step(Event::Rested).0;
    let mut rests: Vec<u64> = Vec::new();
    for n in 1..13usize {
        assert_eq!(connector.backoff().attempts, n % 11);
        let (next, action) = connector.step(Event::ConnectError);
        rests.push(rest(action));
        connector = next.step(Event::Rested).0;
    }
    let expected: Vec<u64> =
        vec![2000, 4000, 8000, 16000, 30000, 30000, 30000, 30000, 30000, 60000, 30000, 30000];
    assert_eq!(rests, expected);
}

#[test]
fn outages_begin_alike() {
    let (failed, _) = Connector::start(None).0.step(Event::Connected).0.step(Event::SendError);
    assert_eq!(failed.step(Event::Rested).0.backoff(), Backoff::new());
    let (short, _) = listening().step(Event::Close).0.step(Event::Uptime(9));
    let short = short.step(Event::Rested).0;
    assert_eq!(short.backoff(), Backoff { attempts: 1, delay_ms: 2000 });
    let (long, _) = listening().step(Event::Close).0.step(Event::Uptime(10));
    assert_eq!(long.step(Event::Rested).0.backoff(), Backoff::new());
}

#[test]
fn long_session_is_followed_by_a_prompt_reconnect() {
    let (connector, _) = listening().step(Event::Close);
    let (connector, action) = connector.step(Event::Uptime(10));
    assert_eq!(rest(action), 100);
    assert_eq!(connector.backoff(), Backoff::new());
}

#[test]
fn notes_are_handed_on() {
    let (connector, action) = listening().step(Event::Text(Some(note())));
    assert!(matches!(action, Action::Deliver(note) if note.id == "n1"));
    let (connector, action) = connector.step(Event::Delivered);
    assert!(matches!(action, Action::Listen));
    assert_eq!(connector.phase(), Phase::Listening);
}

#[test]
fn stops_without_receiver() {
    let (connector, _) = listening().step(Event::Text(Some(note())));
    let (connector, action) = connector.step(Event::ReceiverGone);
    assert!(matches!(action, Action::Stop));
    assert_eq!(connector.phase(), Phase::Stopped);
    assert!(!connector.accepts(&Event::Rested));
}

#[test]
fn pings_are_answered_with_their_payload() {
    let (connector, action) = listening().step(Event::Ping(Bytes::from_static(b"p")));
    assert!(matches!(action, Action::Pong(payload) if payload == Bytes::from_static(b"p")));
    assert!(matches!(connector.step(Event::Sent).1, Action::Listen));
}

#[test]
fn heartbeats_are_sent() {
    let (connector, action) = listening().step(Event::Tick);
    assert!(matches!(action, Action::Ping(message) if message.typ == "ping"));
    let (connector, action) = connector.step(Event::SendError);
    assert!(matches!(action, Action::MeasureUptime));
    assert_eq!(connector.phase(), Phase::Closing);
}

#[test]
fn other_messages_are_passed_over() {
    assert!(matches!(listening().step(Event::Text(None)).1, Action::Listen));
    assert!(matches!(listening().step(Event::Other).1, Action::Listen));
    assert!(matches!(listening().step(Event::ReadError).1, Action::MeasureUptime));
    let (connector, _) = listening().step(Event::Ping(Bytes::new()));
    assert!(matches!(connector.step(Event::SendError).1, Action::MeasureUptime));
}

#[test]
fn events_are_accepted_in_their_phase() {
    let connector = listening();
    assert!(connector.accepts(&Event::Tick));
    assert!(connector.accepts(&Event::Text(None)));
    assert!(!connector.accepts(&Event::Sent));
    assert!(!connector.accepts(&Event::Connected));
    let (connector, _) = connector.step(Event::Tick);
    assert!(connector.accepts(&Event::SendError));
    assert!(!connector.accepts(&Event::Delivered));
}

#[test]
fn short_sessions_in_a_row_exhaust_the_backoff() {
    let mut backoff = Backoff { attempts: 9, delay_ms: 20_000 };
    assert_eq!(backoff.on_short_session(), 30_000);
    assert_eq!(backoff, Backoff { attempts: 10, delay_ms: 30_000 });
    assert_eq!(backoff.on_short_session(), 60_000);
    assert_eq!(backoff, Backoff { attempts: 0, delay_ms: 30_000 });
    let mut backoff = Backoff { attempts: 10, delay_ms: 4_000 };
    assert_eq!(backoff.on_connect_error(), 60_000);
    assert_eq!(backoff, Backoff { attempts: 0, delay_ms: 4_000 });
}
