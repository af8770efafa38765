//! The interface of a notification backend, and the choice of one.
//!
//! A backend decides who is to be sent what and what is to be asked of Redis.
//! Carrying that out is left to the caller.

use crate::config::Config;
use crate::connections::{
    connections_of, delivery_views, fan_out, law_closed_connection_is_not_reached,
    law_fan_out_reaches_exactly, no_connections, others, serves, with_connection,
    without_connection, without_connection_or_user, Connections, Delivery,
};
use crate::datetime::{latest_date_time, lemma_latest_is_regular, utc_now, CivilDateTime};
use crate::error::Error;
use crate::frame::{law_value_reads_back, read_frame, value_frame};
use crate::memory_backend::MemoryWebSocketBackend;
use crate::message::{
    create_update, create_update_from_payload, law_relayed_update_equals_local_one,
    law_update_tells_what_it_was_given, opt_text, payload_frame, payload_value, tells_update,
    timestamp_value, update_message, UpdateType,
};
use crate::models::{Cipher, DbSend, Device, Folder, User};
use crate::notification::{
    auth_notification, auth_notification_of, cipher_update, cipher_update_of, folder_update,
    folder_update_of, logout, logout_of, opt_text_views, payload_views, send_update, send_update_of,
    text_views, user_update, user_update_of, Notification, NotificationView,
};
use crate::redis_backend::{
    anonymous_publication, law_message_is_published_once, publication, registration, unregistration,
    RedisWebSocketBackend,
};
use crate::redis_command::{
    command_views, RedisCommand, RedisCommandView, RedisNotificationMessage,
    RedisNotificationMessageView,
};
use crate::text::comes_before;
use crate::value::{
    is_plain, is_record, is_shallow, json_member_views, json_of, lemma_json_object_view,
    lists_members, maps_members, member_pairs, msg_pair_views, msg_to_json, msgpack, Json, JsonView,
    MsgValue, MsgView,
};
use vstd::prelude::*;

verus! {

/// What a replica that works with Redis goes by.
pub struct RedisSettings {
    /// The name of this replica among all.
    pub server_instance: Seq<char>,
    /// What the names of the channels start with.
    pub channel_prefix: Seq<char>,
    /// Whether there is a connection for commands.
    pub connected: bool,
}

/// What is to be done about a notification.
#[derive(Debug)]
pub struct Outgoing {
    /// Frames for clients of this replica.
    pub deliveries: Vec<Delivery>,
    /// Commands for Redis, which pass the notification on to the other replicas.
    pub commands: Vec<RedisCommand>,
}

/// What an [`Outgoing`] stands for.
pub struct OutgoingView {
    pub deliveries: Seq<(u64, Seq<u8>)>,
    pub commands: Seq<RedisCommandView>,
}

impl View for Outgoing {
    type V = OutgoingView;

    open spec fn view(&self) -> OutgoingView {
        OutgoingView {
            deliveries: delivery_views(self.deliveries@),
            commands: command_views(self.commands@),
        }
    }
}

impl OutgoingView {
    /// Nothing is to be done.
    pub open spec fn nothing() -> OutgoingView {
        OutgoingView { deliveries: Seq::empty(), commands: Seq::empty() }
    }
}

impl Outgoing {
    /// Nothing is to be done.
    pub fn nothing() -> (outgoing: Outgoing)
        ensures
            outgoing@ == OutgoingView::nothing(),
    {
        let outgoing = Outgoing { deliveries: Vec::new(), commands: Vec::new() };
        assert(outgoing@.deliveries =~= OutgoingView::nothing().deliveries);
        assert(outgoing@.commands =~= OutgoingView::nothing().commands);
        outgoing
    }
}

/// The payload of a notification as MessagePack.
pub open spec fn mapping_payload(notification: NotificationView) -> MsgView {
    MsgView::Mapping(
        notification.payload.map_values(
            |field: (Seq<char>, MsgView)| (MsgView::Text(field.0), field.1),
        ),
    )
}

/// The payload of a notification as JSON.
pub open spec fn json_payload(notification: NotificationView) -> JsonView {
    JsonView::Object(
        notification.payload.map_values(
            |field: (Seq<char>, MsgView)| (field.0, json_of(field.1)),
        ),
    )
}

/// The message by which one replica passes a notification on to the others.
pub open spec fn broadcast_message(
    notification: NotificationView,
    server_instance: Seq<char>,
) -> RedisNotificationMessageView {
    RedisNotificationMessageView {
        update_type: notification.update_type,
        payload: json_payload(notification),
        acting_device_id: notification.acting_device_id,
        target_users: notification.target_users,
        server_instance,
    }
}

/// The frame in which clients are told of a notification. With Redis it is made
/// from the JSON payload, as it is on the other replicas.
pub open spec fn notification_frame(
    settings: Option<RedisSettings>,
    notification: NotificationView,
) -> Seq<u8> {
    match settings {
        None => value_frame(
            update_message(
                mapping_payload(notification),
                notification.update_type,
                notification.acting_device_id,
            ),
        ),
        Some(_) => payload_frame(
            json_payload(notification),
            notification.update_type,
            notification.acting_device_id,
        ),
    }
}

/// Whether the payload that clients are told of a notification has all its fields:
/// made from JSON, as it is with Redis, it is the mapping of the members in the order
/// of their names.
pub open spec fn arrives_in_full(
    settings: Option<RedisSettings>,
    notification: NotificationView,
) -> bool {
    settings is Some ==> maps_members(
        payload_value(json_payload(notification)),
        json_payload(notification),
    )
}

/// What a backend does about a notification: its own clients are told at once,
/// and with Redis the other replicas are handed the notification.
pub open spec fn notification_plan(
    settings: Option<RedisSettings>,
    connections: Connections,
    notification: NotificationView,
) -> OutgoingView {
    OutgoingView {
        deliveries: fan_out(
            connections,
            notification.target_users,
            notification_frame(settings, notification),
        ),
        commands: match settings {
            None => Seq::empty(),
            Some(replica) => publication(
                replica,
                broadcast_message(notification, replica.server_instance),
            ),
        },
    }
}

/// The connections after a user closed one.
pub open spec fn after_close(
    settings: Option<RedisSettings>,
    connections: Connections,
    user: Seq<char>,
    id: u128,
) -> Connections {
    match settings {
        None => without_connection(connections, user, id),
        Some(_) => without_connection_or_user(connections, user, id),
    }
}

/// What Redis is asked when a user has opened a connection.
pub open spec fn opening_commands(
    settings: Option<RedisSettings>,
    user: Seq<char>,
    id: u128,
    now: CivilDateTime,
) -> Seq<RedisCommandView> {
    match settings {
        None => Seq::empty(),
        Some(replica) => registration(replica, user, id, now),
    }
}

/// What Redis is asked when a user has closed a connection and these are left.
pub open spec fn closing_commands(
    settings: Option<RedisSettings>,
    connections: Connections,
    user: Seq<char>,
    id: u128,
) -> Seq<RedisCommandView> {
    match settings {
        None => Seq::empty(),
        Some(replica) => unregistration(replica, connections, user, id),
    }
}

/// WebSocket backend trait for different storage implementations.
pub trait WebSocketBackend {
    /// The connections that this replica holds.
    spec fn local_connections(&self) -> Connections;

    /// What the backend goes by where it works with Redis.
    spec fn settings(&self) -> Option<RedisSettings>;

    /// Add a new WebSocket connection for a user.
    fn add_connection(&mut self, user_id: &str, connection_id: u128, sender: u64) -> (commands: Vec<
        RedisCommand,
    >)
        ensures
            final(self).settings() == old(self).settings(),
            final(self).local_connections() == with_connection(
                old(self).local_connections(),
                user_id@,
                connection_id,
                sender,
            ),
            exists|now: CivilDateTime|
                now.regular() && now.unix_seconds() >= 0
                    && command_views(commands@) == #[trigger] opening_commands(
                    old(self).settings(),
                    user_id@,
                    connection_id,
                    now,
                ),
    ;

    /// Remove a WebSocket connection for a user.
    fn remove_connection(&mut self, user_id: &str, connection_id: u128) -> (commands: Vec<
        RedisCommand,
    >)
        ensures
            final(self).settings() == old(self).settings(),
            final(self).local_connections() == after_close(
                old(self).settings(),
                old(self).local_connections(),
                user_id@,
                connection_id,
            ),
            command_views(commands@) == closing_commands(
                old(self).settings(),
                final(self).local_connections(),
                user_id@,
                connection_id,
            ),
    ;

    /// Do what a notification asks for.
    fn dispatch(&self, notification: Notification) -> (outgoing: Outgoing)
        requires
            notification@.is_plain(),
        ensures
            outgoing@ == notification_plan(
                self.settings(),
                self.local_connections(),
                notification@,
            ),
            is_record(json_payload(notification@)) ==> arrives_in_full(
                self.settings(),
                notification@,
            ),
    ;

    /// Send user update notification.
    fn send_user_update(&self, ut: UpdateType, user: &User, push_uuid: &Option<String>) -> (outgoing:
        Outgoing)
        requires
            user.updated_at.valid(),
        ensures
            outgoing@ == notification_plan(
                self.settings(),
                self.local_connections(),
                user_update_of(ut, user.uuid@, user.updated_at),
            ),
            arrives_in_full(
                self.settings(),
                user_update_of(ut, user.uuid@, user.updated_at),
            ),
    {
        proof {
            law_user_update_is_record(ut, user.uuid@, user.updated_at, None);
        }
        self.dispatch(user_update(ut, user))
    }

    /// Send logout notification.
    fn send_logout(&self, user: &User, acting_device_id: Option<String>) -> (outgoing: Outgoing)
        requires
            user.updated_at.valid(),
        ensures
            outgoing@ == notification_plan(
                self.settings(),
                self.local_connections(),
                logout_of(user.uuid@, user.updated_at, opt_text(acting_device_id)),
            ),
            arrives_in_full(
                self.settings(),
                logout_of(user.uuid@, user.updated_at, opt_text(acting_device_id)),
            ),
    {
        proof {
            law_user_update_is_record(
                UpdateType::LogOut,
                user.uuid@,
                user.updated_at,
                opt_text(acting_device_id),
            );
        }
        self.dispatch(logout(user, acting_device_id))
    }

    /// Send folder update notification.
    fn send_folder_update(&self, ut: UpdateType, folder: &Folder, device: &Device) -> (outgoing:
        Outgoing)
        requires
            folder.updated_at.valid(),
        ensures
            outgoing@ == notification_plan(
                self.settings(),
                self.local_connections(),
                folder_update_of(
                    ut,
                    folder.uuid@,
                    folder.user_uuid@,
                    folder.updated_at,
                    device.uuid@,
                ),
            ),
            arrives_in_full(
                self.settings(),
                folder_update_of(
                    ut,
                    folder.uuid@,
                    folder.user_uuid@,
                    folder.updated_at,
                    device.uuid@,
                ),
            ),
    {
        proof {
            law_folder_update_is_record(
                ut,
                folder.uuid@,
                folder.user_uuid@,
                folder.updated_at,
                device.uuid@,
            );
        }
        self.dispatch(folder_update(ut, folder, device))
    }

    /// Send cipher update notification. The time of the call counts where
    /// collections are named.
    fn send_cipher_update(
        &self,
        ut: UpdateType,
        cipher: &Cipher,
        user_ids: &Vec<String>,
        device: &Device,
        collection_uuids: Option<Vec<String>>,
    ) -> (outgoing: Outgoing)
        requires
            cipher.updated_at.valid(),
        ensures
            exists|now: CivilDateTime|
                now.regular() && now.unix_seconds() >= 0
                    && outgoing@ == notification_plan(
                    self.settings(),
                    self.local_connections(),
                    #[trigger] cipher_update_of(
                        ut,
                        cipher.uuid@,
                        opt_text(cipher.user_uuid),
                        opt_text(cipher.organization_uuid),
                        cipher.updated_at,
                        text_views(user_ids@),
                        device.uuid@,
                        opt_text_views(collection_uuids),
                        now,
                    ),
                ) && arrives_in_full(
                    self.settings(),
                    cipher_update_of(
                        ut,
                        cipher.uuid@,
                        opt_text(cipher.user_uuid),
                        opt_text(cipher.organization_uuid),
                        cipher.updated_at,
                        text_views(user_ids@),
                        device.uuid@,
                        opt_text_views(collection_uuids),
                        now,
                    ),
                ),
    {
        let ghost collections = opt_text_views(collection_uuids);
        let now = match &collection_uuids {
            Some(_) => utc_now(),
            None => cipher.updated_at,
        };
        proof {
            lemma_latest_is_regular();
            law_cipher_update_is_record(
                ut,
                cipher.uuid@,
                opt_text(cipher.user_uuid),
                opt_text(cipher.organization_uuid),
                cipher.updated_at,
                text_views(user_ids@),
                device.uuid@,
                collections,
                now,
            );
            if collections is None {
                assert(cipher_update_of(
                    ut,
                    cipher.uuid@,
                    opt_text(cipher.user_uuid),
                    opt_text(cipher.organization_uuid),
                    cipher.updated_at,
                    text_views(user_ids@),
                    device.uuid@,
                    collections,
                    now,
                ) == cipher_update_of(
                    ut,
                    cipher.uuid@,
                    opt_text(cipher.user_uuid),
                    opt_text(cipher.organization_uuid),
                    cipher.updated_at,
                    text_views(user_ids@),
                    device.uuid@,
                    collections,
                    latest_date_time(),
                ));
            }
        }
        self.dispatch(cipher_update(ut, cipher, user_ids, device, collection_uuids, now))
    }

    /// Send send update notification.
    fn send_send_update(
        &self,
        ut: UpdateType,
        send: &DbSend,
        user_ids: &Vec<String>,
        device: &Device,
    ) -> (outgoing: Outgoing)
        requires
            send.revision_date.valid(),
        ensures
            outgoing@ == notification_plan(
                self.settings(),
                self.local_connections(),
                send_update_of(
                    ut,
                    send.uuid@,
                    opt_text(send.user_uuid),
                    send.revision_date,
                    text_views(user_ids@),
                ),
            ),
            arrives_in_full(
                self.settings(),
                send_update_of(
                    ut,
                    send.uuid@,
                    opt_text(send.user_uuid),
                    send.revision_date,
                    text_views(user_ids@),
                ),
            ),
    {
        proof {
            law_send_update_is_record(
                ut,
                send.uuid@,
                opt_text(send.user_uuid),
                send.revision_date,
                text_views(user_ids@),
            );
        }
        self.dispatch(send_update(ut, send, user_ids))
    }

    /// Send auth request notification.
    fn send_auth_request(&self, user_id: &String, auth_request_uuid: &str, device: &Device) -> (outgoing:
        Outgoing)
        ensures
            outgoing@ == notification_plan(
                self.settings(),
                self.local_connections(),
                auth_notification_of(
                    UpdateType::AuthRequest,
                    auth_request_uuid@,
                    user_id@,
                    device.uuid@,
                ),
            ),
            arrives_in_full(
                self.settings(),
                auth_notification_of(
                    UpdateType::AuthRequest,
                    auth_request_uuid@,
                    user_id@,
                    device.uuid@,
                ),
            ),
    {
        proof {
            law_auth_notification_is_record(
                UpdateType::AuthRequest,
                auth_request_uuid@,
                user_id@,
                device.uuid@,
            );
        }
        self.dispatch(
            auth_notification(UpdateType::AuthRequest, user_id, auth_request_uuid, device),
        )
    }

    /// Send auth response notification.
    fn send_auth_response(&self, user_id: &String, auth_request_id: &str, device: &Device) -> (outgoing:
        Outgoing)
        ensures
            outgoing@ == notification_plan(
                self.settings(),
                self.local_connections(),
                auth_notification_of(
                    UpdateType::AuthRequestResponse,
                    auth_request_id@,
                    user_id@,
                    device.uuid@,
                ),
            ),
            arrives_in_full(
                self.settings(),
                auth_notification_of(
                    UpdateType::AuthRequestResponse,
                    auth_request_id@,
                    user_id@,
                    device.uuid@,
                ),
            ),
    {
        proof {
            law_auth_notification_is_record(
                UpdateType::AuthRequestResponse,
                auth_request_id@,
                user_id@,
                device.uuid@,
            );
        }
        self.dispatch(
            auth_notification(UpdateType::AuthRequestResponse, user_id, auth_request_id, device),
        )
    }
}

/// Makes the payload of a notification as MessagePack.
fn make_mapping_payload(payload: Vec<(String, MsgValue)>) -> (pairs: Vec<(MsgValue, MsgValue)>)
    ensures
        msg_pair_views(pairs@) == payload_views(payload@).map_values(
            |field: (Seq<char>, MsgView)| (MsgView::Text(field.0), field.1),
        ),
{
    let mut pairs: Vec<(MsgValue, MsgValue)> = Vec::new();
    for field in fields: payload
        invariant
            fields.seq() == payload@,
            pairs@.len() == fields.index(),
            forall|j: int|
                0 <= j < pairs@.len() ==> (#[trigger] pairs@[j]).0@ == MsgView::Text(
                    payload@[j].0@,
                ) && pairs@[j].1@ == payload@[j].1@,
    {
        pairs.push((MsgValue::Text(field.0), field.1));
    }
    assert(msg_pair_views(pairs@) =~= payload_views(payload@).map_values(
        |field: (Seq<char>, MsgView)| (MsgView::Text(field.0), field.1),
    ));
    pairs
}

/// Makes the payload of a notification as JSON.
pub(crate) fn make_json_payload(notification: &Notification) -> (payload: Json)
    requires
        notification@.is_plain(),
    ensures
        payload@ == json_payload(notification@),
{
    let fields = &notification.payload;
    let mut members: Vec<(String, Json)> = Vec::new();
    let mut i: usize = 0;
    while i < fields.len()
        invariant
            i <= fields@.len(),
            fields@ == notification.payload@,
            notification@.is_plain(),
            members@.len() == i,
            forall|j: int|
                0 <= j < i ==> (#[trigger] members@[j]).0@ == fields@[j].0@ && members@[j].1@
                    == json_of(fields@[j].1@),
        decreases fields.len() - i,
    {
        assert(is_plain(notification@.payload[i as int].1));
        members.push((fields[i].0.clone(), msg_to_json(&fields[i].1)));
        i += 1;
    }
    proof {
        lemma_json_object_view(members);
        assert(json_member_views(members@) =~= json_payload(notification@)->Object_0);
    }
    Json::Object(members)
}

impl WebSocketBackend for MemoryWebSocketBackend {
    open spec fn local_connections(&self) -> Connections {
        self.entries()
    }

    open spec fn settings(&self) -> Option<RedisSettings> {
        None
    }

    fn add_connection(&mut self, user_id: &str, connection_id: u128, sender: u64) -> (commands: Vec<
        RedisCommand,
    >) {
        crate::backends::WebSocketBackend::add_connection(self, user_id, connection_id, sender);
        let commands: Vec<RedisCommand> = Vec::new();
        proof {
            lemma_latest_is_regular();
            assert(command_views(commands@) =~= opening_commands(
                None,
                user_id@,
                connection_id,
                latest_date_time(),
            ));
        }
        commands
    }

    fn remove_connection(&mut self, user_id: &str, connection_id: u128) -> (commands: Vec<
        RedisCommand,
    >) {
        crate::backends::WebSocketBackend::remove_connection(self, user_id, connection_id);
        let commands: Vec<RedisCommand> = Vec::new();
        assert(command_views(commands@) =~= Seq::empty());
        commands
    }

    fn dispatch(&self, notification: Notification) -> (outgoing: Outgoing) {
        let ghost told = notification@;
        let users = notification.target_users;
        let data = create_update(
            make_mapping_payload(notification.payload),
            notification.update_type,
            notification.acting_device_id,
        );
        let mut deliveries: Vec<Delivery> = Vec::new();
        let mut i: usize = 0;
        assert(delivery_views(deliveries@) =~= fan_out(
            self.entries(),
            text_views(users@).take(0),
            data@,
        ));
        while i < users.len()
            invariant
                i <= users@.len(),
                delivery_views(deliveries@) == fan_out(
                    self.entries(),
                    text_views(users@).take(i as int),
                    data@,
                ),
            decreases users.len() - i,
        {
            let mut more = crate::backends::WebSocketBackend::send_update(self, &users[i], &data);
            let ghost before = deliveries@;
            let ghost added = more@;
            deliveries.append(&mut more);
            proof {
                let so_far = text_views(users@).take(i + 1);
                assert(so_far.drop_last() =~= text_views(users@).take(i as int));
                assert(so_far.last() == users@[i as int]@);
                assert(delivery_views(deliveries@) =~= delivery_views(before) + delivery_views(
                    added,
                ));
            }
            i += 1;
        }
        assert(text_views(users@).take(i as int) =~= text_views(users@));
        let outgoing = Outgoing { deliveries, commands: Vec::new() };
        assert(outgoing@.commands =~= Seq::empty());
        outgoing
    }
}

impl WebSocketBackend for RedisWebSocketBackend {
    open spec fn local_connections(&self) -> Connections {
        self.entries()
    }

    open spec fn settings(&self) -> Option<RedisSettings> {
        Some(self.replica())
    }

    fn add_connection(&mut self, user_id: &str, connection_id: u128, sender: u64) -> (commands: Vec<
        RedisCommand,
    >) {
        self.insert_local(user_id, connection_id, sender);
        let commands = self.register_connection(user_id, connection_id);
        proof {
            let now = choose|now: CivilDateTime|
                now.regular() && now.unix_seconds() >= 0
                    && command_views(commands@) == #[trigger] registration(
                    self.replica(),
                    user_id@,
                    connection_id,
                    now,
                );
            assert(command_views(commands@) == opening_commands(
                old(self).settings(),
                user_id@,
                connection_id,
                now,
            ));
        }
        commands
    }

    fn remove_connection(&mut self, user_id: &str, connection_id: u128) -> (commands: Vec<
        RedisCommand,
    >) {
        self.remove_local(user_id, connection_id);
        self.unregister_connection(user_id, connection_id)
    }

    fn dispatch(&self, notification: Notification) -> (outgoing: Outgoing) {
        let payload = make_json_payload(&notification);
        let data = create_update_from_payload(
            &payload,
            notification.update_type,
            notification.acting_device_id.clone(),
        );
        let deliveries = self.address_users(&notification.target_users, &data);
        let message = RedisNotificationMessage {
            update_type: notification.update_type,
            payload,
            acting_device_id: notification.acting_device_id,
            target_users: notification.target_users,
            server_instance: self.server_instance_id().clone(),
        };
        Outgoing { deliveries, commands: self.publish_notification(message) }
    }
}

/// Backend type enum for different WebSocket storage implementations.
pub enum WebSocketBackendType {
    Memory(MemoryWebSocketBackend),
    Redis(RedisWebSocketBackend),
}

/// A backend whose kind is not known.
pub struct BackendRef<'a>(pub &'a dyn WebSocketBackend);

impl WebSocketBackendType {
    /// Create new WebSocket backend based on configuration. `attempt` is what came
    /// of setting up the Redis backend, which is tried only where it is enabled;
    /// where it failed, the memory backend takes its place if it may, and the
    /// error is reported otherwise.
    pub fn new(config: &Config, attempt: Option<Result<RedisWebSocketBackend, Error>>) -> (backend:
        Result<Self, Error>)
        requires
            config.redis_websocket_enabled ==> attempt is Some,
        ensures
            config.redis_websocket_enabled ==> match attempt->0 {
                Ok(made) => backend == Ok::<Self, Error>(WebSocketBackendType::Redis(made)),
                Err(failure) => if config.redis_websocket_fallback_memory {
                    &&& backend matches Ok(WebSocketBackendType::Memory(fresh))
                    &&& fresh.entries() == no_connections()
                } else {
                    backend == Err::<Self, Error>(failure)
                },
            },
            !config.redis_websocket_enabled ==> {
                &&& backend matches Ok(WebSocketBackendType::Memory(fresh))
                &&& fresh.entries() == no_connections()
            },
    {
        if config.redis_websocket_enabled {
            if let Some(attempt) = attempt {
                match attempt {
                    Ok(made) => {
                        return Ok(WebSocketBackendType::Redis(made));
                    },
                    Err(failure) => {
                        if !config.redis_websocket_fallback_memory {
                            return Err(failure);
                        }
                    },
                }
            }
        }
        Ok(WebSocketBackendType::Memory(MemoryWebSocketBackend::new()))
    }

    /// Get the backend as a trait object.
    pub fn as_backend<'a>(&'a self) -> (backend: BackendRef<'a>)
        ensures
            backend.0.settings() == self.settings(),
            backend.0.local_connections() == self.local_connections(),
    {
        match self {
            WebSocketBackendType::Memory(backend) => BackendRef(backend),
            WebSocketBackendType::Redis(backend) => BackendRef(backend),
        }
    }
}

/// What is asked of Redis to pass a frame for an anonymous client on.
pub open spec fn anonymous_commands(
    settings: Option<RedisSettings>,
    token: Seq<char>,
    data: Seq<u8>,
) -> Seq<RedisCommandView> {
    match settings {
        None => Seq::empty(),
        Some(replica) => anonymous_publication(replica, token, data),
    }
}

impl WebSocketBackendType {
    /// Passes a frame for an anonymous client on to the other replicas, if there
    /// are any.
    pub fn publish_anonymous(&self, token: &str, data: Vec<u8>) -> (commands: Vec<RedisCommand>)
        ensures
            command_views(commands@) == anonymous_commands(self.settings(), token@, data@),
    {
        match self {
            WebSocketBackendType::Memory(_) => {
                let commands: Vec<RedisCommand> = Vec::new();
                assert(command_views(commands@) =~= Seq::empty());
                commands
            },
            WebSocketBackendType::Redis(backend) => backend.publish_anonymous(token, data),
        }
    }
}

impl WebSocketBackend for WebSocketBackendType {
    open spec fn local_connections(&self) -> Connections {
        match self {
            WebSocketBackendType::Memory(backend) => backend.local_connections(),
            WebSocketBackendType::Redis(backend) => backend.local_connections(),
        }
    }

    open spec fn settings(&self) -> Option<RedisSettings> {
        match self {
            WebSocketBackendType::Memory(backend) => backend.settings(),
            WebSocketBackendType::Redis(backend) => backend.settings(),
        }
    }

    fn add_connection(&mut self, user_id: &str, connection_id: u128, sender: u64) -> (commands: Vec<
        RedisCommand,
    >) {
        let ghost settings = self.settings();
        let commands = match self {
            WebSocketBackendType::Memory(backend) => backend.add_connection(
                user_id,
                connection_id,
                sender,
            ),
            WebSocketBackendType::Redis(backend) => backend.add_connection(
                user_id,
                connection_id,
                sender,
            ),
        };
        assert(exists|now: CivilDateTime|
            now.regular() && now.unix_seconds() >= 0
                && command_views(commands@) == #[trigger] opening_commands(
                settings,
                user_id@,
                connection_id,
                now,
            ));
        commands
    }

    fn remove_connection(&mut self, user_id: &str, connection_id: u128) -> (commands: Vec<
        RedisCommand,
    >) {
        match self {
            WebSocketBackendType::Memory(backend) => backend.remove_connection(
                user_id,
                connection_id,
            ),
            WebSocketBackendType::Redis(backend) => backend.remove_connection(
                user_id,
                connection_id,
            ),
        }
    }

    fn dispatch(&self, notification: Notification) -> (outgoing: Outgoing) {
        self.as_backend().0.dispatch(notification)
    }
}

/// The payload of an account update or a logout is a record, so that it reaches the
/// clients of every replica with all its fields.
pub proof fn law_user_update_is_record(
    ut: UpdateType,
    user: Seq<char>,
    date: CivilDateTime,
    acting_device_id: Option<Seq<char>>,
)
    ensures
        is_record(json_payload(user_update_of(ut, user, date))),
        is_record(json_payload(logout_of(user, date, acting_device_id))),
{
    reveal_strlit("UserId");
    reveal_strlit("Date");
    reveal_with_fuel(json_of, 3);
    assert("UserId"@[0] != "Date"@[0]);
    lemma_timestamp_is_shallow(date);
}

/// The payload of a folder update is a record.
pub proof fn law_folder_update_is_record(
    ut: UpdateType,
    folder: Seq<char>,
    user: Seq<char>,
    date: CivilDateTime,
    device: Seq<char>,
)
    ensures
        is_record(json_payload(folder_update_of(ut, folder, user, date, device))),
{
    lemma_names_differ();
    reveal_with_fuel(json_of, 3);
    lemma_timestamp_is_shallow(date);
}

/// The payload of a vault item update is a record.
pub proof fn law_cipher_update_is_record(
    ut: UpdateType,
    cipher: Seq<char>,
    user: Option<Seq<char>>,
    organization: Option<Seq<char>>,
    date: CivilDateTime,
    users: Seq<Seq<char>>,
    device: Seq<char>,
    collections: Option<Seq<Seq<char>>>,
    now: CivilDateTime,
)
    ensures
        is_record(
            json_payload(
                cipher_update_of(
                    ut,
                    cipher,
                    user,
                    organization,
                    date,
                    users,
                    device,
                    collections,
                    now,
                ),
            ),
        ),
{
    lemma_names_differ();
    reveal_with_fuel(json_of, 3);
    reveal_with_fuel(is_shallow, 4);
    lemma_timestamp_is_shallow(date);
    lemma_timestamp_is_shallow(now);
}

/// The payload of a send update is a record.
pub proof fn law_send_update_is_record(
    ut: UpdateType,
    send: Seq<char>,
    user: Option<Seq<char>>,
    date: CivilDateTime,
    users: Seq<Seq<char>>,
)
    ensures
        is_record(json_payload(send_update_of(ut, send, user, date, users))),
{
    lemma_names_differ();
    reveal_with_fuel(json_of, 3);
    lemma_timestamp_is_shallow(date);
}

/// The payload of a login request or its answer is a record.
pub proof fn law_auth_notification_is_record(
    ut: UpdateType,
    request: Seq<char>,
    user: Seq<char>,
    device: Seq<char>,
)
    ensures
        is_record(json_payload(auth_notification_of(ut, request, user, device))),
{
    lemma_names_differ();
    reveal_with_fuel(json_of, 3);
}

proof fn lemma_names_differ()
    ensures
        "Id"@[0] == 'I',
        "UserId"@[0] == 'U',
        "OrganizationId"@[0] == 'O',
        "CollectionIds"@[0] == 'C',
        "RevisionDate"@[0] == 'R',
{
    reveal_strlit("Id");
    reveal_strlit("UserId");
    reveal_strlit("OrganizationId");
    reveal_strlit("CollectionIds");
    reveal_strlit("RevisionDate");
}

proof fn lemma_timestamp_is_shallow(date: CivilDateTime)
    ensures
        is_shallow(json_of(timestamp_value(date)), 8),
{
    reveal_with_fuel(json_of, 2);
    reveal_with_fuel(is_shallow, 4);
}

/// A notification whose values are all texts looks the same to clients with Redis and
/// without, here and on every other replica.
pub proof fn law_auth_notification_looks_alike(
    replica: RedisSettings,
    ut: UpdateType,
    request: Seq<char>,
    user: Seq<char>,
    device: Seq<char>,
)
    requires
        arrives_in_full(Some(replica), auth_notification_of(ut, request, user, device)),
    ensures
        ({
            let notification = auth_notification_of(ut, request, user, device);
            notification_frame(Some(replica), notification) == notification_frame(
                None,
                notification,
            )
        }),
{
    let notification = auth_notification_of(ut, request, user, device);
    let payload = json_payload(notification);
    let pairs = mapping_payload(notification)->Mapping_0;
    reveal_strlit("Id");
    reveal_strlit("UserId");
    assert(comes_before("Id"@, "UserId"@));
    assert(pairs =~= member_pairs(payload));
    assert(lists_members(pairs, payload));
    law_relayed_update_equals_local_one(payload, pairs, ut, Some(device));
}

/// The payload of a notification keeps every field, in both forms: its name, and its
/// value as it is or as JSON.
pub proof fn law_payload_keeps_every_field(notification: NotificationView, i: int)
    ensures
        mapping_payload(notification) is Mapping,
        json_payload(notification) is Object,
        mapping_payload(notification)->Mapping_0.len() == notification.payload.len(),
        json_payload(notification)->Object_0.len() == notification.payload.len(),
        0 <= i < notification.payload.len() ==> {
            let (name, value) = notification.payload[i];
            &&& mapping_payload(notification)->Mapping_0[i] == (MsgView::Text(name), value)
            &&& json_payload(notification)->Object_0[i] == (name, json_of(value))
        },
{
}

/// What replicas hand each other of a notification is its kind, its payload, its device
/// and all its users, under the name of the one that hands it on.
pub proof fn law_message_to_replicas_is_complete(
    notification: NotificationView,
    server_instance: Seq<char>,
)
    ensures
        ({
            let message = broadcast_message(notification, server_instance);
            &&& message.update_type == notification.update_type
            &&& message.payload == json_payload(notification)
            &&& message.acting_device_id == notification.acting_device_id
            &&& message.target_users == notification.target_users
            &&& message.server_instance == server_instance
        }),
{
}

/// Whatever a notification is about and whichever device it names, the frame that
/// clients are sent reads as an update of its kind, with its device, and with its
/// payload: as it is without Redis, and as its JSON reads with Redis.
pub proof fn law_frame_tells_of_the_notification(
    settings: Option<RedisSettings>,
    notification: NotificationView,
    payload: MsgView,
    rest: Seq<u8>,
)
    requires
        settings is None ==> payload == mapping_payload(notification),
        settings is Some ==> payload == payload_value(json_payload(notification)),
    ensures
        exists|told: MsgView|
            {
                &&& #[trigger] tells_update(
                    told,
                    payload,
                    notification.update_type,
                    notification.acting_device_id,
                )
                &&& read_frame(notification_frame(settings, notification) + rest) == Some(
                    (msgpack(told), rest),
                )
            },
{
    let told = update_message(payload, notification.update_type, notification.acting_device_id);
    law_update_tells_what_it_was_given(
        payload,
        notification.update_type,
        notification.acting_device_id,
    );
    law_value_reads_back(told, rest);
    assert(tells_update(
        told,
        payload,
        notification.update_type,
        notification.acting_device_id,
    ));
}

/// A notification goes at once to exactly the own connections of all the users it is
/// for, whatever it is about, and with a connection to Redis, and only then, it is
/// published once, complete, and under the name of this replica.
pub proof fn law_notification_goes_to_its_users(
    settings: Option<RedisSettings>,
    connections: Connections,
    notification: NotificationView,
    sender: u64,
    bytes: Seq<u8>,
)
    ensures
        ({
            let plan = notification_plan(settings, connections, notification);
            &&& plan.deliveries.contains((sender, bytes)) <==> bytes == notification_frame(
                settings,
                notification,
            ) && exists|i: int, j: int|
                0 <= i < notification.target_users.len() && 0 <= j < connections_of(
                    connections,
                    notification.target_users[i],
                ).len() && #[trigger] connections_of(
                    connections,
                    notification.target_users[i],
                )[j].1 == sender
            &&& plan.deliveries == fan_out(
                connections,
                notification.target_users,
                notification_frame(settings, notification),
            )
            &&& settings is None || !settings->0.connected ==> plan.commands.len() == 0
            &&& settings is Some && settings->0.connected ==> {
                &&& plan.commands.len() == 1
                &&& plan.commands[0] matches RedisCommandView::PublishNotification {
                    channel,
                    message,
                }
                &&& channel == settings->0.channel_prefix + ":ws:user"@
                &&& message.update_type == notification.update_type
                &&& message.payload == json_payload(notification)
                &&& message.acting_device_id == notification.acting_device_id
                &&& message.target_users == notification.target_users
                &&& message.server_instance == settings->0.server_instance
            }
        }),
{
    let plan = notification_plan(settings, connections, notification);
    let frame = notification_frame(settings, notification);
    law_fan_out_reaches_exactly(connections, notification.target_users, frame, sender, bytes);
    assert(serves(connections, notification.target_users, sender) <==> exists|i: int, j: int|
        0 <= i < notification.target_users.len() && 0 <= j < connections_of(
            connections,
            notification.target_users[i],
        ).len() && #[trigger] connections_of(connections, notification.target_users[i])[j].1
            == sender);
    if settings is Some {
        law_message_is_published_once(
            settings->0,
            broadcast_message(notification, settings->0.server_instance),
            Seq::empty(),
            Seq::empty(),
        );
    }
}

/// Nothing that is to be done is nothing: no delivery and no command.
pub proof fn law_nothing_is_nothing()
    ensures
        OutgoingView::nothing().deliveries.len() == 0,
        OutgoingView::nothing().commands.len() == 0,
{
}

/// What is to be done stands for exactly the deliveries and the commands it holds.
pub proof fn law_outgoing_keeps_everything(outgoing: Outgoing)
    ensures
        outgoing@.deliveries == delivery_views(outgoing.deliveries@),
        outgoing@.commands == command_views(outgoing.commands@),
{
}

/// A backend in memory works without Redis and holds what its registry holds; a Redis
/// backend works with Redis as the replica it is; and either stays what it is when it
/// is held as a backend of some type.
pub proof fn law_backends_are_what_they_are(
    memory: MemoryWebSocketBackend,
    redis_side: RedisWebSocketBackend,
)
    ensures
        memory.settings() is None,
        memory.local_connections() == memory.entries(),
        redis_side.settings() == Some(redis_side.replica()),
        redis_side.local_connections() == redis_side.entries(),
        WebSocketBackendType::Memory(memory).settings() is None,
        WebSocketBackendType::Memory(memory).local_connections() == memory.entries(),
        WebSocketBackendType::Redis(redis_side).settings() == Some(redis_side.replica()),
        WebSocketBackendType::Redis(redis_side).local_connections() == redis_side.entries(),
{
}

/// Redis is asked about connections and anonymous frames exactly what the replica asks,
/// and nothing where there is no Redis.
pub proof fn law_redis_is_asked_only_where_it_is(
    settings: Option<RedisSettings>,
    connections: Connections,
    user: Seq<char>,
    id: u128,
    now: CivilDateTime,
    token: Seq<char>,
    data: Seq<u8>,
)
    ensures
        settings is None ==> opening_commands(settings, user, id, now).len() == 0
            && closing_commands(settings, connections, user, id).len() == 0 && anonymous_commands(
            settings,
            token,
            data,
        ).len() == 0,
        settings matches Some(replica) ==> {
            &&& opening_commands(settings, user, id, now) == registration(replica, user, id, now)
            &&& closing_commands(settings, connections, user, id) == unregistration(
                replica,
                connections,
                user,
                id,
            )
            &&& anonymous_commands(settings, token, data) == anonymous_publication(
                replica,
                token,
                data,
            )
        },
{
}

/// With Redis and without, closing leaves a user the connections with other
/// identifiers, in their order, and every other user all of theirs.
pub proof fn law_closing_takes_one_connection(
    settings: Option<RedisSettings>,
    connections: Connections,
    user: Seq<char>,
    id: u128,
    other: Seq<char>,
)
    ensures
        connections_of(after_close(settings, connections, user, id), user) == others(
            connections_of(connections, user),
            id,
        ),
        other != user ==> connections_of(after_close(settings, connections, user, id), other)
            == connections_of(connections, other),
{
    law_closed_connection_is_not_reached(connections, user, id, other);
}

}
