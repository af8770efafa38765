//! The notification interface that the rest of the server uses.

use crate::backend::{
    anonymous_commands, arrives_in_full, notification_plan, Outgoing, OutgoingView, RedisSettings,
    WebSocketBackend, WebSocketBackendType,
};
use crate::backends::{addressed_to_token, no_subscribers, AnonymousWebSocketBackend};
use crate::config::Config;
use crate::connections::{delivery_views, Delivery};
use crate::datetime::CivilDateTime;
use crate::frame::{law_value_reads_back, read_frame, value_frame};
use crate::memory_backend::MemoryAnonymousWebSocketBackend;
use crate::message::{
    anonymous_message, create_anonymous_update, first_value, law_answer_tells_what_it_was_given,
    opt_text, tells_answer, value_of, UpdateType,
};
use crate::models::{Cipher, DbSend, Device, Folder, User};
use crate::notification::{
    auth_notification_of, cipher_update_of, folder_update_of, logout_of, opt_text_views,
    send_update_of, text_views, user_update_of, NotificationView,
};
use crate::redis_backend::{anonymous_channel, law_keys_are_spelled_alike};
use crate::redis_command::{AnonymousMessage, AnonymousMessageView, RedisCommandView};
use crate::value::{msg_pair_views, msgpack, MsgValue, MsgView};
use vstd::prelude::*;

verus! {

/// What is done about a notification: nothing where nobody is to be told
/// anything, and otherwise what the backend does.
pub open spec fn announced(
    config: Config,
    backend: WebSocketBackendType,
    notification: NotificationView,
) -> OutgoingView {
    if config.silent() {
        OutgoingView::nothing()
    } else {
        notification_plan(backend.settings(), backend.local_connections(), notification)
    }
}

/// Unified WebSocket notification interface.
///
/// The last modified date needs to be updated before calling these methods.
pub struct WebSocketUsers;

impl WebSocketUsers {
    /// Tells a user's clients that the account has changed.
    pub fn send_user_update(
        &self,
        config: &Config,
        backend: &WebSocketBackendType,
        ut: UpdateType,
        user: &User,
        push_uuid: &Option<String>,
    ) -> (outgoing: Outgoing)
        requires
            user.updated_at.valid(),
        ensures
            outgoing@ == announced(
                *config,
                *backend,
                user_update_of(ut, user.uuid@, user.updated_at),
            ),
            config.enable_websocket || config.push_enabled ==> outgoing@ == notification_plan(
                backend.settings(),
                backend.local_connections(),
                user_update_of(ut, user.uuid@, user.updated_at),
            ),
            !config.enable_websocket && !config.push_enabled ==> outgoing@.deliveries.len() == 0
                && outgoing@.commands.len() == 0,
            config.silent() || arrives_in_full(
                backend.settings(),
                user_update_of(ut, user.uuid@, user.updated_at),
            ),
    {
        if config.notifications_disabled() {
            return Outgoing::nothing();
        }
        backend.send_user_update(ut, user, push_uuid)
    }

    /// Tells a user's clients to log out.
    pub fn send_logout(
        &self,
        config: &Config,
        backend: &WebSocketBackendType,
        user: &User,
        acting_device_id: Option<String>,
    ) -> (outgoing: Outgoing)
        requires
            user.updated_at.valid(),
        ensures
            outgoing@ == announced(
                *config,
                *backend,
                logout_of(user.uuid@, user.updated_at, opt_text(acting_device_id)),
            ),
            config.enable_websocket || config.push_enabled ==> outgoing@ == notification_plan(
                backend.settings(),
                backend.local_connections(),
                logout_of(user.uuid@, user.updated_at, opt_text(acting_device_id)),
            ),
            !config.enable_websocket && !config.push_enabled ==> outgoing@.deliveries.len() == 0
                && outgoing@.commands.len() == 0,
            config.silent() || arrives_in_full(
                backend.settings(),
                logout_of(user.uuid@, user.updated_at, opt_text(acting_device_id)),
            ),
    {
        if config.notifications_disabled() {
            return Outgoing::nothing();
        }
        backend.send_logout(user, acting_device_id)
    }

    /// Tells a user's clients that a folder has changed.
    pub fn send_folder_update(
        &self,
        config: &Config,
        backend: &WebSocketBackendType,
        ut: UpdateType,
        folder: &Folder,
        device: &Device,
    ) -> (outgoing: Outgoing)
        requires
            folder.updated_at.valid(),
        ensures
            outgoing@ == announced(
                *config,
                *backend,
                folder_update_of(
                    ut,
                    folder.uuid@,
                    folder.user_uuid@,
                    folder.updated_at,
                    device.uuid@,
                ),
            ),
            config.enable_websocket || config.push_enabled ==> outgoing@ == notification_plan(
                backend.settings(),
                backend.local_connections(),
                folder_update_of(
                    ut,
                    folder.uuid@,
                    folder.user_uuid@,
                    folder.updated_at,
                    device.uuid@,
                ),
            ),
            !config.enable_websocket && !config.push_enabled ==> outgoing@.deliveries.len() == 0
                && outgoing@.commands.len() == 0,
            config.silent() || arrives_in_full(
                backend.settings(),
                folder_update_of(
                    ut,
                    folder.uuid@,
                    folder.user_uuid@,
                    folder.updated_at,
                    device.uuid@,
                ),
            ),
    {
        if config.notifications_disabled() {
            return Outgoing::nothing();
        }
        backend.send_folder_update(ut, folder, device)
    }

    /// Tells some users' clients that a vault item has changed, at the time of the
    /// call.
    pub fn send_cipher_update(
        &self,
        config: &Config,
        backend: &WebSocketBackendType,
        ut: UpdateType,
        cipher: &Cipher,
        user_ids: &Vec<String>,
        device: &Device,
        collection_uuids: Option<Vec<String>>,
    ) -> (outgoing: Outgoing)
        requires
            cipher.updated_at.valid(),
        ensures
            config.silent() ==> outgoing@ == OutgoingView::nothing(),
            !config.enable_websocket && !config.push_enabled ==> outgoing@.deliveries.len() == 0
                && outgoing@.commands.len() == 0,
            config.enable_websocket || config.push_enabled ==> exists|now: CivilDateTime|
                now.regular() && now.unix_seconds() >= 0
                    && outgoing@ == notification_plan(
                    backend.settings(),
                    backend.local_connections(),
                    #[trigger] cipher_update_of(
                        ut,
                        cipher.uuid@,
                        opt_text(cipher.user_uuid),
                        opt_text(cipher.organization_uuid),
                        cipher.updated_at,
                        text_views(user_ids@),
                        device.uuid@,
                        opt_text_views(collection_uuids),
                        now,
                    ),
                ),
            !config.silent() ==> exists|now: CivilDateTime|
                now.regular() && now.unix_seconds() >= 0
                    && outgoing@ == notification_plan(
                    backend.settings(),
                    backend.local_connections(),
                    #[trigger] cipher_update_of(
                        ut,
                        cipher.uuid@,
                        opt_text(cipher.user_uuid),
                        opt_text(cipher.organization_uuid),
                        cipher.updated_at,
                        text_views(user_ids@),
                        device.uuid@,
                        opt_text_views(collection_uuids),
                        now,
                    ),
                ) && arrives_in_full(
                    backend.settings(),
                    cipher_update_of(
                        ut,
                        cipher.uuid@,
                        opt_text(cipher.user_uuid),
                        opt_text(cipher.organization_uuid),
                        cipher.updated_at,
                        text_views(user_ids@),
                        device.uuid@,
                        opt_text_views(collection_uuids),
                        now,
                    ),
                ),
    {
        if config.notifications_disabled() {
            return Outgoing::nothing();
        }
        backend.send_cipher_update(ut, cipher, user_ids, device, collection_uuids)
    }

    /// Tells some users' clients that a send has changed.
    pub fn send_send_update(
        &self,
        config: &Config,
        backend: &WebSocketBackendType,
        ut: UpdateType,
        send: &DbSend,
        user_ids: &Vec<String>,
        device: &Device,
    ) -> (outgoing: Outgoing)
        requires
            send.revision_date.valid(),
        ensures
            outgoing@ == announced(
                *config,
                *backend,
                send_update_of(
                    ut,
                    send.uuid@,
                    opt_text(send.user_uuid),
                    send.revision_date,
                    text_views(user_ids@),
                ),
            ),
            config.enable_websocket || config.push_enabled ==> outgoing@ == notification_plan(
                backend.settings(),
                backend.local_connections(),
                send_update_of(
                    ut,
                    send.uuid@,
                    opt_text(send.user_uuid),
                    send.revision_date,
                    text_views(user_ids@),
                ),
            ),
            !config.enable_websocket && !config.push_enabled ==> outgoing@.deliveries.len() == 0
                && outgoing@.commands.len() == 0,
            config.silent() || arrives_in_full(
                backend.settings(),
                send_update_of(
                    ut,
                    send.uuid@,
                    opt_text(send.user_uuid),
                    send.revision_date,
                    text_views(user_ids@),
                ),
            ),
    {
        if config.notifications_disabled() {
            return Outgoing::nothing();
        }
        backend.send_send_update(ut, send, user_ids, device)
    }

    /// Tells a user's clients that a login asks for approval.
    pub fn send_auth_request(
        &self,
        config: &Config,
        backend: &WebSocketBackendType,
        user_id: &String,
        auth_request_uuid: &str,
        device: &Device,
    ) -> (outgoing: Outgoing)
        ensures
            outgoing@ == announced(
                *config,
                *backend,
                auth_notification_of(
                    UpdateType::AuthRequest,
                    auth_request_uuid@,
                    user_id@,
                    device.uuid@,
                ),
            ),
            config.enable_websocket || config.push_enabled ==> outgoing@ == notification_plan(
                backend.settings(),
                backend.local_connections(),
                auth_notification_of(
                    UpdateType::AuthRequest,
                    auth_request_uuid@,
                    user_id@,
                    device.uuid@,
                ),
            ),
            !config.enable_websocket && !config.push_enabled ==> outgoing@.deliveries.len() == 0
                && outgoing@.commands.len() == 0,
            config.silent() || arrives_in_full(
                backend.settings(),
                auth_notification_of(
                    UpdateType::AuthRequest,
                    auth_request_uuid@,
                    user_id@,
                    device.uuid@,
                ),
            ),
    {
        if config.notifications_disabled() {
            return Outgoing::nothing();
        }
        backend.send_auth_request(user_id, auth_request_uuid, device)
    }

    /// Tells a user's clients that a login request was answered.
    pub fn send_auth_response(
        &self,
        config: &Config,
        backend: &WebSocketBackendType,
        user_id: &String,
        auth_request_id: &str,
        device: &Device,
    ) -> (outgoing: Outgoing)
        ensures
            outgoing@ == announced(
                *config,
                *backend,
                auth_notification_of(
                    UpdateType::AuthRequestResponse,
                    auth_request_id@,
                    user_id@,
                    device.uuid@,
                ),
            ),
            config.enable_websocket || config.push_enabled ==> outgoing@ == notification_plan(
                backend.settings(),
                backend.local_connections(),
                auth_notification_of(
                    UpdateType::AuthRequestResponse,
                    auth_request_id@,
                    user_id@,
                    device.uuid@,
                ),
            ),
            !config.enable_websocket && !config.push_enabled ==> outgoing@.deliveries.len() == 0
                && outgoing@.commands.len() == 0,
            config.silent() || arrives_in_full(
                backend.settings(),
                auth_notification_of(
                    UpdateType::AuthRequestResponse,
                    auth_request_id@,
                    user_id@,
                    device.uuid@,
                ),
            ),
    {
        if config.notifications_disabled() {
            return Outgoing::nothing();
        }
        backend.send_auth_response(user_id, auth_request_id, device)
    }
}

/// The frame that answers a login request.
pub open spec fn auth_response_frame(user: Seq<char>, request: Seq<char>) -> Seq<u8> {
    value_frame(
        anonymous_message(
            MsgView::Mapping(
                seq![
                    (MsgView::Text("Id"@), MsgView::Text(request)),
                    (MsgView::Text("UserId"@), MsgView::Text(user)),
                ],
            ),
            UpdateType::AuthRequestResponse,
            user,
        ),
    )
}

/// What is done with a frame for an anonymous client: it goes to the client at
/// once if this replica holds the connection, and with Redis to the other
/// replicas.
pub open spec fn anonymous_plan(
    settings: Option<RedisSettings>,
    subscribers: Map<Seq<char>, u64>,
    token: Seq<char>,
    data: Seq<u8>,
) -> OutgoingView {
    OutgoingView {
        deliveries: addressed_to_token(subscribers, token, data),
        commands: anonymous_commands(settings, token, data),
    }
}

/// What a replica sends when it receives a frame for an anonymous client: nothing
/// where it published it itself.
pub open spec fn forwarded_to_token(
    server_instance: Seq<char>,
    subscribers: Map<Seq<char>, u64>,
    message: AnonymousMessageView,
) -> Seq<(u64, Seq<u8>)> {
    if message.server_instance == server_instance {
        Seq::empty()
    } else {
        addressed_to_token(subscribers, message.token, message.data)
    }
}

/// The connections of clients that wait for the answer to a login request.
pub struct AnonymousWebSocketSubscriptions {
    map: MemoryAnonymousWebSocketBackend,
}

impl AnonymousWebSocketSubscriptions {
    /// The sender for each token.
    pub closed spec fn subscribers(&self) -> Map<Seq<char>, u64> {
        self.map.entries()
    }

    /// Nobody waits.
    pub fn new() -> (subscriptions: Self)
        ensures
            subscriptions.subscribers() == no_subscribers(),
    {
        AnonymousWebSocketSubscriptions { map: MemoryAnonymousWebSocketBackend::new() }
    }

    /// A client waits under a token, in place of the one that did before.
    pub fn subscribe(&mut self, token: &str, sender: u64)
        ensures
            final(self).subscribers() == old(self).subscribers().insert(token@, sender),
    {
        self.map.add_connection(token, sender);
    }

    /// Nobody waits under a token any more.
    pub fn unsubscribe(&mut self, token: &str)
        ensures
            final(self).subscribers() == old(self).subscribers().remove(token@),
    {
        self.map.remove_connection(token);
    }

    /// Addresses bytes to the client that waits under a token.
    pub fn send_update(&self, token: &str, data: &Vec<u8>) -> (deliveries: Vec<Delivery>)
        ensures
            delivery_views(deliveries@) == addressed_to_token(self.subscribers(), token@, data@),
    {
        self.map.send_update(token, data)
    }

    /// Answers the client that waits for a login request, on whichever replica it
    /// waits.
    pub fn send_auth_response(
        &self,
        config: &Config,
        backend: &WebSocketBackendType,
        user_id: &String,
        auth_request_id: &str,
    ) -> (outgoing: Outgoing)
        ensures
            outgoing@ == if config.enable_websocket {
                anonymous_plan(
                    backend.settings(),
                    self.subscribers(),
                    auth_request_id@,
                    auth_response_frame(user_id@, auth_request_id@),
                )
            } else {
                OutgoingView::nothing()
            },
    {
        if !config.enable_websocket {
            return Outgoing::nothing();
        }
        let payload = vec![
            (MsgValue::Text("Id".to_owned()), MsgValue::Text(auth_request_id.to_owned())),
            (MsgValue::Text("UserId".to_owned()), MsgValue::Text(user_id.clone())),
        ];
        assert(msg_pair_views(payload@) =~= seq![
            (MsgView::Text("Id"@), MsgView::Text(auth_request_id@)),
            (MsgView::Text("UserId"@), MsgView::Text(user_id@)),
        ]);
        let data = create_anonymous_update(payload, UpdateType::AuthRequestResponse, user_id);
        let deliveries = self.send_update(auth_request_id, &data);
        Outgoing { deliveries, commands: backend.publish_anonymous(auth_request_id, data) }
    }

    /// Takes a frame from the other replicas, or the echo of an own one.
    pub fn handle_message(&self, server_instance: &String, message: &AnonymousMessage) -> (deliveries:
        Vec<Delivery>)
        ensures
            delivery_views(deliveries@) == forwarded_to_token(
                server_instance@,
                self.subscribers(),
                message@,
            ),
    {
        if message.server_instance == *server_instance {
            let deliveries: Vec<Delivery> = Vec::new();
            assert(delivery_views(deliveries@) =~= Seq::empty());
            return deliveries;
        }
        self.send_update(&message.token, &message.data)
    }
}

/// Where nobody is to be told anything, no notification has any effect.
pub proof fn law_disabled_notifications_do_nothing(
    config: Config,
    backend: WebSocketBackendType,
    notification: NotificationView,
)
    requires
        !config.enable_websocket,
        !config.push_enabled,
    ensures
        announced(config, backend, notification) == OutgoingView::nothing(),
{
}

/// Everything that the clients of one replica are sent on account of an answer:
/// what the publisher sends at once, if this is the publisher, and what is sent
/// when the message comes in. Replicas are told apart by their names, so this speaks
/// of replicas with different names; two of the same name would drop each other's
/// messages.
pub open spec fn told_anonymously(
    replica: RedisSettings,
    subscribers: Map<Seq<char>, u64>,
    publisher: RedisSettings,
    token: Seq<char>,
    data: Seq<u8>,
) -> Seq<(u64, Seq<u8>)> {
    let at_once = if replica.server_instance == publisher.server_instance {
        anonymous_plan(Some(publisher), subscribers, token, data).deliveries
    } else {
        Seq::empty()
    };
    at_once + forwarded_to_token(
        replica.server_instance,
        subscribers,
        AnonymousMessageView { token, data, server_instance: publisher.server_instance },
    )
}

/// The answer to a login request is published on the channel that every replica
/// with the same prefix listens on, and reaches the client once, whichever
/// replica it waits on. This holds among replicas with different names.
pub proof fn law_answer_reaches_the_waiting_client(
    replica: RedisSettings,
    subscribers: Map<Seq<char>, u64>,
    publisher: RedisSettings,
    publisher_subscribers: Map<Seq<char>, u64>,
    token: Seq<char>,
    data: Seq<u8>,
)
    requires
        publisher.connected,
        replica.channel_prefix == publisher.channel_prefix,
    ensures
        anonymous_plan(Some(publisher), publisher_subscribers, token, data).commands == seq![
            RedisCommandView::PublishAnonymous {
                channel: anonymous_channel(replica.channel_prefix),
                frame: AnonymousMessageView {
                    token,
                    data,
                    server_instance: publisher.server_instance,
                },
            },
        ],
        told_anonymously(replica, subscribers, publisher, token, data) == addressed_to_token(
            subscribers,
            token,
            data,
        ),
{
    assert(told_anonymously(replica, subscribers, publisher, token, data) =~= addressed_to_token(
        subscribers,
        token,
        data,
    ));
}

/// Only the client that subscribed last under a token is reached under it, and
/// nobody is after it has left; other tokens are not affected.
pub proof fn law_subscription_is_per_token(
    subscribers: Map<Seq<char>, u64>,
    token: Seq<char>,
    sender: u64,
    other: Seq<char>,
    data: Seq<u8>,
)
    ensures
        addressed_to_token(subscribers.insert(token, sender), token, data) == seq![(sender, data)],
        addressed_to_token(subscribers.remove(token), token, data) == Seq::<(u64, Seq<u8>)>::empty(),
        other != token ==> addressed_to_token(subscribers.insert(token, sender), other, data)
            == addressed_to_token(subscribers, other, data),
        other != token ==> addressed_to_token(subscribers.remove(token), other, data)
            == addressed_to_token(subscribers, other, data),
{
}

/// Wherever clients are to be told over WebSocket or by push, or both, a notification
/// is sent as the backend sends it; it is kept back only where they are told in neither
/// way.
pub proof fn law_enabled_notifications_go_out(
    config: Config,
    backend: WebSocketBackendType,
    notification: NotificationView,
)
    ensures
        config.enable_websocket || config.push_enabled ==> announced(config, backend, notification)
            == notification_plan(backend.settings(), backend.local_connections(), notification),
        !config.enable_websocket && !config.push_enabled ==> announced(
            config,
            backend,
            notification,
        ).deliveries.len() == 0 && announced(config, backend, notification).commands.len() == 0,
{
}

/// The frame that answers a login request reads as an answer for the user, which names
/// the request and the user.
pub proof fn law_answer_names_request_and_user(user: Seq<char>, request: Seq<char>, rest: Seq<u8>)
    ensures
        exists|told: MsgView, payload: MsgView|
            {
                &&& #[trigger] tells_answer(
                    told,
                    payload,
                    UpdateType::AuthRequestResponse,
                    user,
                )
                &&& payload is Mapping && payload->Mapping_0.len() == 2
                &&& value_of(payload, "Id"@) == Some(MsgView::Text(request))
                &&& value_of(payload, "UserId"@) == Some(MsgView::Text(user))
                &&& read_frame(auth_response_frame(user, request) + rest) == Some(
                    (msgpack(told), rest),
                )
            },
{
    reveal_strlit("Id");
    reveal_strlit("UserId");
    let pairs = seq![
        (MsgView::Text("Id"@), MsgView::Text(request)),
        (MsgView::Text("UserId"@), MsgView::Text(user)),
    ];
    let payload = MsgView::Mapping(pairs);
    let told = anonymous_message(payload, UpdateType::AuthRequestResponse, user);
    law_answer_tells_what_it_was_given(payload, UpdateType::AuthRequestResponse, user);
    law_value_reads_back(told, rest);
    assert("Id"@.len() != "UserId"@.len());
    reveal_with_fuel(first_value, 3);
    assert(pairs.drop_first()[0] == pairs[1]);
    assert(tells_answer(told, payload, UpdateType::AuthRequestResponse, user));
}

/// An answer goes at once to the client that waits here under the token, if one does,
/// and with a connection to Redis, and only then, it is published once, as it is and
/// under the name of this replica.
pub proof fn law_answer_goes_to_its_token(
    settings: Option<RedisSettings>,
    subscribers: Map<Seq<char>, u64>,
    token: Seq<char>,
    data: Seq<u8>,
)
    ensures
        ({
            let plan = anonymous_plan(settings, subscribers, token, data);
            &&& subscribers.contains_key(token) ==> plan.deliveries == seq![
                (subscribers[token], data),
            ]
            &&& !subscribers.contains_key(token) ==> plan.deliveries.len() == 0
            &&& settings is None || !settings->0.connected ==> plan.commands.len() == 0
            &&& settings is Some && settings->0.connected ==> {
                &&& plan.commands.len() == 1
                &&& plan.commands[0] matches RedisCommandView::PublishAnonymous { channel, frame }
                &&& channel == settings->0.channel_prefix + ":ws:anonymous"@
                &&& frame.token == token
                &&& frame.data == data
                &&& frame.server_instance == settings->0.server_instance
            }
        }),
{
    if settings is Some {
        law_keys_are_spelled_alike(
            Seq::empty(),
            0,
            Seq::empty(),
            settings->0.channel_prefix,
        );
    }
}

/// A frame that another replica published goes to the client that waits here under its
/// token, as it is; one that this replica published goes to nobody.
pub proof fn law_foreign_answer_is_forwarded(
    server_instance: Seq<char>,
    subscribers: Map<Seq<char>, u64>,
    message: AnonymousMessageView,
)
    ensures
        message.server_instance == server_instance ==> forwarded_to_token(
            server_instance,
            subscribers,
            message,
        ).len() == 0,
        message.server_instance != server_instance && subscribers.contains_key(message.token)
            ==> forwarded_to_token(server_instance, subscribers, message) == seq![
            (subscribers[message.token], message.data),
        ],
        !subscribers.contains_key(message.token) ==> forwarded_to_token(
            server_instance,
            subscribers,
            message,
        ).len() == 0,
{
}

}
