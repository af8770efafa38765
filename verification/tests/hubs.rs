use vaultsync::backend::{WebSocketBackend, WebSocketBackendType};
use vaultsync::config::Config;
use vaultsync::error::Error;
use vaultsync::hub::{
    access_token, authenticated_user, connection_registered, hub_step, initial_message_text,
    open_anonymous_connection, open_connection, routes, ClientMessage, HubAction, HubEvent, HubReply,
    HubRoute, InitialMessage, WSEntryMapGuard, CHANNEL_CAPACITY, PING_INTERVAL_SECONDS,
};
use vaultsync::listener::{
    kind_of_channel, listener_step, ChannelKind, ListenerAction, ListenerEvent, Published,
};
use vaultsync::memory_backend::MemoryWebSocketBackend;
use vaultsync::message::UpdateType;
use vaultsync::models::{Device, User};
use vaultsync::redis_backend::RedisWebSocketBackend;
use vaultsync::redis_command::{AnonymousMessage, RedisNotificationMessage};
use vaultsync::users::AnonymousWebSocketSubscriptions;
use vaultsync::value::Json;

fn config(enable_websocket: bool) -> Config {
    Config {
        enable_websocket,
        push_enabled: false,
        redis_websocket_enabled: false,
        redis_websocket_fallback_memory: false,
        redis_url: None,
        redis_channel_prefix: "vault".to_owned(),
        login_ratelimit_seconds: 60,
        login_ratelimit_max_burst: 10,
        login_account_ratelimit_seconds: 60,
        login_account_ratelimit_max_burst: 10,
        admin_ratelimit_seconds: 300,
        admin_ratelimit_max_burst: 3,
    }
}

fn refused(error: Error, text: &str, status: u16) -> bool {
    matches!(error, Error::Status { message, code } if message == text && code == status)
}

#[test]
fn hubs_are_mounted_where_websockets_are_on() {
    assert_eq!(routes(&config(true)), vec![HubRoute::Users, HubRoute::Anonymous]);
    assert_eq!(routes(&config(false)), vec![]);
    assert_eq!(HubRoute::Users.path(), "/hub");
    assert_eq!(HubRoute::Anonymous.path(), "/anonymous-hub");
    assert_eq!(CHANNEL_CAPACITY, 100);
    assert_eq!(PING_INTERVAL_SECONDS, 15);
}

#[test]
fn token_in_the_query_comes_first() {
    let query = Some("q".to_owned());
    let header = Some("h".to_owned());
    assert_eq!(access_token(query.clone(), header.clone()).unwrap(), "q");
    assert_eq!(access_token(None, header).unwrap(), "h");
    assert_eq!(access_token(query, None).unwrap(), "q");
    assert!(refused(access_token(None, None).err().unwrap(), "Invalid claim", 401));
}

#[test]
fn token_has_to_verify() {
    assert_eq!(authenticated_user(Some("alice".to_owned())).unwrap(), "alice");
    assert!(refused(authenticated_user(None).err().unwrap(), "Invalid token", 401));
}

#[test]
fn connection_is_opened_and_closed() {
    let mut backend = WebSocketBackendType::Memory(MemoryWebSocketBackend::new());
    let device = Device { uuid: "d".to_owned() };
    let alice = "alice".to_owned();
    let (first, commands) = open_connection(&mut backend, alice.clone(), "1.2.3.4".to_owned(), 10);
    let (second, _) = open_connection(&mut backend, alice.clone(), "1.2.3.4".to_owned(), 11);
    assert!(commands.is_empty());
    assert_eq!(first.user_uuid, "alice");
    assert_eq!(first.addr, "1.2.3.4");
    assert_ne!(first.entry_uuid, second.entry_uuid);
    assert_eq!(first.entry_uuid >> 76 & 0xf, 4);
    assert_eq!(first.entry_uuid >> 62 & 0x3, 2);
    let told = backend.send_auth_request(&alice, "r", &device).deliveries;
    assert_eq!(told.iter().map(|d| d.sender).collect::<Vec<_>>(), vec![10, 11]);
    assert!(first.close(&mut backend).is_empty());
    let told = backend.send_auth_request(&alice, "r", &device).deliveries;
    assert_eq!(told.iter().map(|d| d.sender).collect::<Vec<_>>(), vec![11]);
    second.close(&mut backend);
    assert!(backend.send_auth_request(&alice, "r", &device).deliveries.is_empty());
}

#[test]
fn unregistered_connection_is_refused() {
    let guard = WSEntryMapGuard::new("alice".to_owned(), 5, "addr".to_owned());
    let accepted = connection_registered(guard, Ok(())).unwrap();
    assert_eq!(accepted.entry_uuid, 5);
    let failed = connection_registered(accepted, Err(Error::Message("down".to_owned())));
    assert!(refused(failed.err().unwrap(), "Failed to register WebSocket connection", 500));
}

#[test]
fn anonymous_connection_is_opened_and_closed() {
    let mut subscriptions = AnonymousWebSocketSubscriptions::new();
    let guard = open_anonymous_connection(&mut subscriptions, "req".to_owned(), "a".to_owned(), 3);
    assert_eq!(subscriptions.send_update("req", &vec![1])[0].sender, 3);
    guard.close(&mut subscriptions);
    assert!(subscriptions.send_update("req", &vec![1]).is_empty());
}

fn step(event: HubEvent<u8>) -> HubAction<u8> {
    hub_step(event)
}

fn initial(protocol: &str, version: i32) -> HubEvent<u8> {
    let message = InitialMessage { protocol: protocol.to_owned(), version };
    HubEvent::Received(ClientMessage::Text(Some(message)))
}

#[test]
fn initial_message_is_answered() {
    match step(initial("messagepack", 1)) {
        HubAction::Reply(HubReply::Binary(data)) => assert_eq!(data, vec![0x7b, 0x7d, 0x1e]),
        _ => panic!("no answer"),
    }
    assert!(matches!(step(initial("json", 1)), HubAction::Wait));
    assert!(matches!(step(initial("messagepack", 2)), HubAction::Wait));
    assert!(matches!(step(HubEvent::Received(ClientMessage::Text(None))), HubAction::Wait));
}

#[test]
fn record_separator_is_stripped_once() {
    assert_eq!(initial_message_text("{}\u{1e}"), "{}");
    assert_eq!(initial_message_text("{}\u{1e}\u{1e}"), "{}\u{1e}");
    assert_eq!(initial_message_text("{}"), "{}");
    assert_eq!(initial_message_text(""), "");
    assert_eq!(initial_message_text("\u{e9}\u{1e}"), "\u{e9}");
}

#[test]
fn pings_are_answered_and_sent() {
    match step(HubEvent::Received(ClientMessage::Ping(vec![1, 2]))) {
        HubAction::Reply(HubReply::Pong(data)) => assert_eq!(data, vec![1, 2]),
        _ => panic!("no pong"),
    }
    assert!(matches!(step(HubEvent::Received(ClientMessage::Pong(vec![1]))), HubAction::Wait));
    match step(HubEvent::Tick) {
        HubAction::Reply(HubReply::Ping(data)) => assert_eq!(data, vec![2, 0x91, 6]),
        _ => panic!("no ping"),
    }
}

#[test]
fn other_messages_are_passed_through() {
    assert!(matches!(
        step(HubEvent::Received(ClientMessage::Other(9))),
        HubAction::Reply(HubReply::Verbatim(9))
    ));
    assert!(matches!(step(HubEvent::Queued(8)), HubAction::Reply(HubReply::Verbatim(8))));
}

#[test]
fn connection_ends_when_either_side_does() {
    assert!(matches!(step(HubEvent::Received(ClientMessage::Close)), HubAction::Stop));
    assert!(matches!(step(HubEvent::ClientGone), HubAction::Stop));
    assert!(matches!(step(HubEvent::QueueClosed), HubAction::Stop));
}

#[test]
fn channels_are_told_apart() {
    assert_eq!(kind_of_channel("vault", &"vault:ws:user".to_owned()), Some(ChannelKind::Users));
    assert_eq!(kind_of_channel("vault", &"vault:ws:anonymous".to_owned()), Some(ChannelKind::Anonymous));
    assert_eq!(kind_of_channel("vault", &"other:ws:user".to_owned()), None);
}

#[test]
fn listener_goes_on_whatever_happens() {
    let mut backend = RedisWebSocketBackend::new(Some("one".to_owned()), 1, "vault".to_owned());
    backend.initialize();
    backend.add_connection("alice", 1, 10);
    let mut subscriptions = AnonymousWebSocketSubscriptions::new();
    subscriptions.subscribe("req", 4);
    let next = |event: ListenerEvent| {
        let (deliveries, action) = listener_step(&backend, &subscriptions, &event);
        (deliveries.iter().map(|d| d.sender).collect::<Vec<_>>(), action)
    };
    assert_eq!(next(ListenerEvent::Started), (vec![], ListenerAction::Subscribe));
    assert_eq!(next(ListenerEvent::Subscribed), (vec![], ListenerAction::Receive));
    assert_eq!(next(ListenerEvent::SubscribeFailed), (vec![], ListenerAction::Pause { seconds: 5 }));
    assert_eq!(next(ListenerEvent::PauseOver), (vec![], ListenerAction::Subscribe));
    assert_eq!(next(ListenerEvent::StreamFailed), (vec![], ListenerAction::Subscribe));
    assert_eq!(next(ListenerEvent::Received(Published::Unreadable)), (vec![], ListenerAction::Receive));
    for (origin, reached) in [("two:1", vec![10]), ("one:1", vec![])] {
        let message = RedisNotificationMessage {
            update_type: UpdateType::SyncVault,
            payload: Json::Object(vec![]),
            acting_device_id: None,
            target_users: vec!["alice".to_owned(), "bob".to_owned()],
            server_instance: origin.to_owned(),
        };
        let event = ListenerEvent::Received(Published::Notification(message));
        assert_eq!(next(event), (reached, ListenerAction::Receive));
    }
    for (origin, reached) in [("two:1", vec![4]), ("one:1", vec![])] {
        let message = AnonymousMessage {
            token: "req".to_owned(),
            data: vec![1],
            server_instance: origin.to_owned(),
        };
        let event = ListenerEvent::Received(Published::Anonymous(message));
        assert_eq!(next(event), (reached, ListenerAction::Receive));
    }
}

#[test]
fn user_without_connections_is_forgotten_by_the_redis_backend() {
    let mut backend = RedisWebSocketBackend::new(Some("one".to_owned()), 1, "vault".to_owned());
    backend.add_connection("alice", 1, 10);
    backend.remove_connection("alice", 1);
    backend.remove_connection("alice", 1);
    let alice = User {
        uuid: "alice".to_owned(),
        updated_at: vaultsync::datetime::CivilDateTime {
            year: 2024,
            month: 1,
            day: 1,
            hour: 0,
            minute: 0,
            second: 0,
            nano: 0,
        },
    };
    assert!(backend.send_logout(&alice, None).deliveries.is_empty());
}
