use vaultsync::backend::{Outgoing, WebSocketBackend, WebSocketBackendType};
use vaultsync::config::Config;
use vaultsync::connections::Delivery;
use vaultsync::datetime::CivilDateTime;
use vaultsync::error::Error;
use vaultsync::memory_backend::MemoryWebSocketBackend;
use vaultsync::message::{
    create_anonymous_update, create_update, create_update_from_payload, serialize_date, UpdateType,
};
use vaultsync::models::{Cipher, DbSend, Device, Folder, User};
use vaultsync::notification::cipher_update;
use vaultsync::redis_backend::RedisWebSocketBackend;
use vaultsync::redis_command::{AnonymousMessage, RedisCommand, RedisNotificationMessage};
use vaultsync::users::{AnonymousWebSocketSubscriptions, WebSocketUsers};
use vaultsync::value::{Json, MsgValue};

fn config(enable_websocket: bool, push_enabled: bool) -> Config {
    Config {
        enable_websocket,
        push_enabled,
        redis_websocket_enabled: false,
        redis_websocket_fallback_memory: false,
        redis_url: None,
        redis_channel_prefix: "vault".to_owned(),
        login_ratelimit_seconds: 60,
        login_ratelimit_max_burst: 10,
        login_account_ratelimit_seconds: 60,
        login_account_ratelimit_max_burst: 10,
        admin_ratelimit_seconds: 300,
        admin_ratelimit_max_burst: 3,
    }
}

fn noon() -> CivilDateTime {
    CivilDateTime { year: 2024, month: 7, day: 1, hour: 12, minute: 0, second: 0, nano: 0 }
}

fn user() -> User {
    User { uuid: "alice".to_owned(), updated_at: noon() }
}

fn device() -> Device {
    Device { uuid: "phone".to_owned() }
}

fn text(text: &str) -> MsgValue {
    MsgValue::Text(text.to_owned())
}

fn json(text: &str) -> Json {
    Json::Text(text.to_owned())
}

fn to(sender: u64, data: &[u8]) -> Delivery {
    Delivery { sender, data: data.to_vec() }
}

fn memory() -> WebSocketBackendType {
    let mut backend = WebSocketBackendType::Memory(MemoryWebSocketBackend::new());
    assert!(backend.add_connection("alice", 1, 10).is_empty());
    assert!(backend.add_connection("alice", 2, 11).is_empty());
    assert!(backend.add_connection("bob", 3, 20).is_empty());
    backend
}

fn replica(host: &str) -> RedisWebSocketBackend {
    let mut backend = RedisWebSocketBackend::new(Some(host.to_owned()), 7, "vault".to_owned());
    backend.initialize();
    backend
}

fn json_date(date: CivilDateTime) -> Json {
    match serialize_date(date) {
        MsgValue::Ext(tag, bytes) => Json::Array(vec![
            Json::Signed(tag as i64),
            Json::Array(bytes.into_iter().map(|b| Json::Signed(b as i64)).collect()),
        ]),
        _ => panic!("no timestamp"),
    }
}

fn published(outgoing: &Outgoing) -> &RedisNotificationMessage {
    assert_eq!(outgoing.commands.len(), 1);
    match &outgoing.commands[0] {
        RedisCommand::PublishNotification { channel, message } => {
            assert_eq!(channel, "vault:ws:user");
            message
        }
        _ => panic!("nothing published"),
    }
}

#[test]
fn memory_backend_tells_the_users_connections() {
    let outgoing = memory().send_user_update(UpdateType::SyncVault, &user(), &None);
    let data = create_update(
        vec![(text("UserId"), text("alice")), (text("Date"), serialize_date(noon()))],
        UpdateType::SyncVault,
        None,
    );
    assert_eq!(outgoing.deliveries, vec![to(10, &data), to(11, &data)]);
    assert!(outgoing.commands.is_empty());
}

#[test]
fn logout_names_the_acting_device() {
    let outgoing = memory().send_logout(&user(), Some("phone".to_owned()));
    let data = create_update(
        vec![(text("UserId"), text("alice")), (text("Date"), serialize_date(noon()))],
        UpdateType::LogOut,
        Some("phone".to_owned()),
    );
    assert_eq!(outgoing.deliveries, vec![to(10, &data), to(11, &data)]);
}

#[test]
fn folder_update_goes_to_its_owner() {
    let folder = Folder { uuid: "f".to_owned(), user_uuid: "bob".to_owned(), updated_at: noon() };
    let outgoing = memory().send_folder_update(UpdateType::SyncFolderUpdate, &folder, &device());
    let data = create_update(
        vec![
            (text("Id"), text("f")),
            (text("UserId"), text("bob")),
            (text("RevisionDate"), serialize_date(noon())),
        ],
        UpdateType::SyncFolderUpdate,
        Some("phone".to_owned()),
    );
    assert_eq!(outgoing.deliveries, vec![to(20, &data)]);
}

fn cipher() -> Cipher {
    Cipher {
        uuid: "c".to_owned(),
        user_uuid: Some("alice".to_owned()),
        organization_uuid: None,
        updated_at: noon(),
    }
}

#[test]
fn cipher_update_goes_to_all_named_users() {
    let users = vec!["bob".to_owned(), "nobody".to_owned(), "alice".to_owned()];
    let outgoing =
        memory().send_cipher_update(UpdateType::SyncCipherUpdate, &cipher(), &users, &device(), None);
    let data = create_update(
        vec![
            (text("Id"), text("c")),
            (text("UserId"), text("alice")),
            (text("OrganizationId"), MsgValue::Nil),
            (text("CollectionIds"), MsgValue::Nil),
            (text("RevisionDate"), serialize_date(noon())),
        ],
        UpdateType::SyncCipherUpdate,
        Some("phone".to_owned()),
    );
    assert_eq!(outgoing.deliveries, vec![to(20, &data), to(10, &data), to(11, &data)]);
}

#[test]
fn cipher_in_collections_belongs_to_no_user_and_changes_now() {
    let later = CivilDateTime { year: 2025, ..noon() };
    let mut shared = cipher();
    shared.organization_uuid = Some("org".to_owned());
    let users = vec!["bob".to_owned()];
    let notification = cipher_update(
        UpdateType::SyncCipherCreate,
        &shared,
        &users,
        &device(),
        Some(vec!["c1".to_owned(), "c2".to_owned()]),
        later,
    );
    let outgoing = memory().dispatch(notification);
    let data = create_update(
        vec![
            (text("Id"), text("c")),
            (text("UserId"), MsgValue::Nil),
            (text("OrganizationId"), text("org")),
            (text("CollectionIds"), MsgValue::Array(vec![text("c1"), text("c2")])),
            (text("RevisionDate"), serialize_date(later)),
        ],
        UpdateType::SyncCipherCreate,
        Some("phone".to_owned()),
    );
    assert_eq!(outgoing.deliveries, vec![to(20, &data)]);
}

#[test]
fn cipher_update_reads_the_clock() {
    let users = vec!["bob".to_owned()];
    let outgoing = memory().send_cipher_update(
        UpdateType::SyncCipherCreate,
        &cipher(),
        &users,
        &device(),
        Some(vec![]),
    );
    let data = &outgoing.deliveries[0].data;
    // The date is the last value of the frame: eight bytes behind their marks.
    let tail = &data[data.len() - 10..];
    assert_eq!(tail[..2], [0xd7, 0xff]);
    let mut word: u64 = 0;
    for byte in &tail[2..] {
        word = word << 8 | *byte as u64;
    }
    assert!(word & 0x3_ffff_ffff > 1_700_000_000);
}

#[test]
fn send_update_names_no_device() {
    let send = DbSend { uuid: "s".to_owned(), user_uuid: None, revision_date: noon() };
    let users = vec!["alice".to_owned()];
    let outgoing = memory().send_send_update(UpdateType::SyncSendCreate, &send, &users, &device());
    let data = create_update(
        vec![
            (text("Id"), text("s")),
            (text("UserId"), MsgValue::Nil),
            (text("RevisionDate"), serialize_date(noon())),
        ],
        UpdateType::SyncSendCreate,
        None,
    );
    assert_eq!(outgoing.deliveries, vec![to(10, &data), to(11, &data)]);
}

#[test]
fn auth_request_and_response_name_the_request() {
    let bob = "bob".to_owned();
    for response in [false, true] {
        let backend = memory();
        let (ut, outgoing) = if response {
            (UpdateType::AuthRequestResponse, backend.send_auth_response(&bob, "req", &device()))
        } else {
            (UpdateType::AuthRequest, backend.send_auth_request(&bob, "req", &device()))
        };
        let data = create_update(
            vec![(text("Id"), text("req")), (text("UserId"), text("bob"))],
            ut,
            Some("phone".to_owned()),
        );
        assert_eq!(outgoing.deliveries, vec![to(20, &data)]);
    }
}

#[test]
fn auth_notification_looks_alike_with_redis_and_without() {
    let mut with_redis = replica("one");
    with_redis.add_connection("bob", 1, 20);
    let bob = "bob".to_owned();
    let relayed = with_redis.send_auth_request(&bob, "req", &device());
    assert_eq!(relayed.deliveries, memory().send_auth_request(&bob, "req", &device()).deliveries);
}

#[test]
fn redis_backend_tells_own_clients_and_publishes() {
    let mut backend = WebSocketBackendType::Redis(replica("one"));
    backend.add_connection("alice", 1, 10);
    let outgoing = backend.send_user_update(UpdateType::SyncVault, &user(), &None);
    let payload = Json::Object(vec![
        ("UserId".to_owned(), json("alice")),
        ("Date".to_owned(), json_date(noon())),
    ]);
    let data = create_update_from_payload(&payload, UpdateType::SyncVault, None);
    assert_eq!(outgoing.deliveries, vec![to(10, &data)]);
    let message = published(&outgoing);
    assert_eq!(message.update_type, UpdateType::SyncVault);
    assert_eq!(message.payload, payload);
    assert_eq!(message.acting_device_id, None);
    assert_eq!(message.target_users, vec!["alice".to_owned()]);
    assert_eq!(message.server_instance, "one:7");
}

#[test]
fn every_replica_tells_its_clients_once() {
    let mut one = replica("one");
    let mut two = replica("two");
    one.add_connection("alice", 1, 10);
    two.add_connection("alice", 2, 20);
    two.add_connection("alice", 3, 21);
    two.add_connection("bob", 4, 22);
    let outgoing = one.send_logout(&user(), None);
    let message = published(&outgoing);
    assert!(one.handle_notification_message(message).is_empty());
    let data = &outgoing.deliveries[0].data;
    assert_eq!(outgoing.deliveries.len(), 1);
    assert_eq!(two.handle_notification_message(message), vec![to(20, data), to(21, data)]);
}

#[test]
fn unconnected_replica_publishes_nothing() {
    let mut backend = RedisWebSocketBackend::new(None, 3, "vault".to_owned());
    assert_eq!(backend.server_instance_id(), "localhost:3");
    assert!(backend.add_connection("alice", 1, 10).is_empty());
    let outgoing = backend.send_logout(&user(), None);
    assert_eq!(outgoing.deliveries.len(), 1);
    assert!(outgoing.commands.is_empty());
    assert!(backend.publish_anonymous("t", vec![1]).is_empty());
    assert!(backend.remove_connection("alice", 1).is_empty());
    assert!(backend.connection_unregistered("alice").is_empty());
    assert!(backend.register_server_instance_at(noon()).is_empty());
}

#[test]
fn registration_asks_redis_to_remember_the_connection() {
    let backend = replica("one");
    let id = 0x0123_4567_89ab_cdef_0123_4567_89ab_cdef;
    let commands = backend.register_connection_at("alice", id, noon());
    assert_eq!(commands.len(), 3);
    match &commands[0] {
        RedisCommand::SetConnection { key, connection, ttl } => {
            assert_eq!(key, "vw:connections:alice:01234567-89ab-cdef-0123-456789abcdef");
            assert_eq!(connection.user_id, "alice");
            assert_eq!(connection.connection_id, id);
            assert_eq!(connection.server_instance, "one:7");
            assert_eq!(connection.connected_at, noon());
            assert_eq!(*ttl, 300);
        }
        _ => panic!("no record"),
    }
    assert!(matches!(&commands[1], RedisCommand::AddMember { key, member }
        if key == "vw:presence:alice" && member == "one:7"));
    assert!(matches!(&commands[2], RedisCommand::Expire { key, ttl: 300 } if key == "vw:presence:alice"));
}

#[test]
fn every_connection_has_a_key_of_its_own() {
    let backend = replica("one");
    let mut keys: Vec<String> = Vec::new();
    for (user, id) in [("a", 1), ("a", 2), ("b", 1), ("a:b", 1), ("a", 1 << 127), ("a", u128::MAX)] {
        match &backend.unregister_connection(user, id)[0] {
            RedisCommand::Delete { key } => {
                assert!(key.starts_with(&format!("vw:connections:{user}:")));
                assert!(!keys.contains(key));
                keys.push(key.clone());
            }
            _ => panic!("no key"),
        }
    }
}

#[test]
fn replica_announces_itself() {
    let backend = replica("one");
    let commands = backend.register_server_instance_at(noon());
    assert_eq!(commands.len(), 1);
    assert!(matches!(&commands[0], RedisCommand::SetTime { key, time: 1_719_835_200, ttl: 300 }
        if key == "vw:server_instance:one:7"));
    assert_eq!(backend.register_server_instance().len(), 1);
    let channels = backend.channels();
    assert_eq!(channels, vec!["vault:ws:user".to_owned(), "vault:ws:anonymous".to_owned()]);
}

fn deletes(command: &RedisCommand, expected: &str) -> bool {
    matches!(command, RedisCommand::Delete { key } if key == expected)
}

#[test]
fn user_with_another_connection_stays_present() {
    let mut backend = replica("one");
    backend.add_connection("alice", 1, 10);
    backend.add_connection("alice", 2, 20);
    let commands = backend.remove_connection("alice", 1);
    assert_eq!(commands.len(), 1);
    assert!(deletes(&commands[0], "vw:connections:alice:00000000-0000-0000-0000-000000000001"));
    assert!(backend.connection_unregistered("alice").is_empty());
    let data = vec![1];
    assert_eq!(backend.address_users(&vec!["alice".to_owned()], &data), vec![to(20, &data)]);
}

#[test]
fn presence_ends_with_the_last_connection() {
    let mut backend = replica("one");
    backend.add_connection("alice", 1, 10);
    backend.add_connection("bob", 2, 20);
    let commands = backend.remove_connection("alice", 1);
    assert_eq!(commands.len(), 2);
    assert!(deletes(&commands[0], "vw:connections:alice:00000000-0000-0000-0000-000000000001"));
    assert!(matches!(&commands[1], RedisCommand::RemoveMember { key, member }
        if key == "vw:presence:alice" && member == "one:7"));
    assert_eq!(backend.connection_unregistered("alice").len(), 1);
    assert!(backend.connection_unregistered("bob").is_empty());
}

#[test]
fn backend_follows_the_settings() {
    let mut settings = config(true, false);
    assert!(matches!(WebSocketBackendType::new(&settings, None), Ok(WebSocketBackendType::Memory(_))));
    settings.redis_websocket_enabled = true;
    assert!(matches!(
        WebSocketBackendType::new(&settings, Some(Ok(replica("one")))),
        Ok(WebSocketBackendType::Redis(_))
    ));
    let failed = WebSocketBackendType::new(&settings, Some(Err(Error::Message("down".to_owned()))));
    assert_eq!(failed.err().unwrap().user_message(), "down");
    settings.redis_websocket_fallback_memory = true;
    assert!(matches!(
        WebSocketBackendType::new(&settings, Some(Err(Error::Message("down".to_owned())))),
        Ok(WebSocketBackendType::Memory(_))
    ));
}

#[test]
fn backend_is_usable_without_knowing_its_kind() {
    let backend = memory();
    let outgoing = backend.as_backend().0.send_auth_request(&"bob".to_owned(), "r", &device());
    assert_eq!(outgoing.deliveries.len(), 1);
    assert_eq!(outgoing.deliveries[0].sender, 20);
}

#[test]
fn silence_where_neither_websockets_nor_push_are_on() {
    let users = WebSocketUsers;
    let backend = memory();
    let off = config(false, false);
    let bob = "bob".to_owned();
    let all = vec![bob.clone()];
    let folder = Folder { uuid: "f".to_owned(), user_uuid: bob.clone(), updated_at: noon() };
    let send = DbSend { uuid: "s".to_owned(), user_uuid: None, revision_date: noon() };
    let ut = UpdateType::SyncVault;
    for on in [false, true] {
        let settings = if on { config(false, true) } else { config(false, false) };
        let sent = [
            users.send_user_update(&settings, &backend, ut, &user(), &None),
            users.send_logout(&settings, &backend, &user(), None),
            users.send_folder_update(&settings, &backend, ut, &folder, &device()),
            users.send_cipher_update(&settings, &backend, ut, &cipher(), &all, &device(), None),
            users.send_send_update(&settings, &backend, ut, &send, &all, &device()),
            users.send_auth_request(&settings, &backend, &bob, "r", &device()),
            users.send_auth_response(&settings, &backend, &bob, "r", &device()),
        ];
        for outgoing in sent {
            assert_eq!(outgoing.deliveries.is_empty(), !on);
        }
    }
    assert!(off.notifications_disabled());
    assert!(!config(true, false).notifications_disabled());
}

#[test]
fn answer_reaches_the_waiting_client() {
    let mut here = AnonymousWebSocketSubscriptions::new();
    let mut there = AnonymousWebSocketSubscriptions::new();
    here.subscribe("other", 1);
    there.subscribe("req", 2);
    let backend = WebSocketBackendType::Redis(replica("one"));
    let outgoing = here.send_auth_response(&config(true, false), &backend, &"alice".to_owned(), "req");
    assert!(outgoing.deliveries.is_empty());
    let data = create_anonymous_update(
        vec![(text("Id"), text("req")), (text("UserId"), text("alice"))],
        UpdateType::AuthRequestResponse,
        "alice",
    );
    assert_eq!(outgoing.commands.len(), 1);
    match &outgoing.commands[0] {
        RedisCommand::PublishAnonymous { channel, frame } => {
            assert_eq!(channel, "vault:ws:anonymous");
            assert_eq!(frame.token, "req");
            assert_eq!(frame.data, data);
            assert_eq!(frame.server_instance, "one:7");
            assert!(here.handle_message(&"one:7".to_owned(), frame).is_empty());
            assert_eq!(there.handle_message(&"two:7".to_owned(), frame), vec![to(2, &data)]);
        }
        _ => panic!("nothing published"),
    }
}

#[test]
fn answer_is_given_at_once_where_the_client_waits_here() {
    let mut here = AnonymousWebSocketSubscriptions::new();
    here.subscribe("req", 1);
    here.subscribe("req", 5);
    let alice = "alice".to_owned();
    let outgoing = here.send_auth_response(&config(true, false), &memory(), &alice, "req");
    assert_eq!(outgoing.deliveries.len(), 1);
    assert_eq!(outgoing.deliveries[0].sender, 5);
    assert!(outgoing.commands.is_empty());
    here.unsubscribe("req");
    assert!(here.send_auth_response(&config(true, false), &memory(), &alice, "req").deliveries.is_empty());
}

#[test]
fn no_answer_without_websockets() {
    let mut here = AnonymousWebSocketSubscriptions::new();
    here.subscribe("req", 1);
    let outgoing = here.send_auth_response(&config(false, true), &memory(), &"alice".to_owned(), "req");
    assert!(outgoing.deliveries.is_empty());
    let own = AnonymousMessage {
        token: "req".to_owned(),
        data: vec![1],
        server_instance: "me".to_owned(),
    };
    assert!(here.handle_message(&"me".to_owned(), &own).is_empty());
    assert_eq!(here.send_update("req", &vec![1]), vec![to(1, &[1])]);
}
