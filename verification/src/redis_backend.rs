//! The backend of a replica that shares its notifications with others through
//! Redis.
//!
//! A replica tells its own clients at once and publishes the notification; the
//! others tell theirs when they receive it. A replica drops what it published
//! itself, by the name that it put into the message.

use crate::backend::{broadcast_message, notification_frame, notification_plan, RedisSettings};
use crate::connections::{
    address_all, addressed, connections_of, copy_entries, delivery_views, fan_out,
    law_closed_connection_is_not_reached, law_fan_out_reaches_exactly, no_connections, others,
    retain_others, serves, with_connection, without_connection_or_user, Connections, Delivery,
};
use crate::datetime::{latest_date_time, lemma_latest_is_regular, utc_now, CivilDateTime};
use crate::frame::{law_value_reads_back, read_frame};
use crate::message::{
    create_update_from_payload, law_update_tells_what_it_was_given, opt_text, payload_frame,
    payload_value, tells_update, update_message,
};
use crate::notification::{text_views, NotificationView};
use crate::redis_command::{
    command_views, AnonymousMessage, AnonymousMessageView, RedisCommand, RedisCommandView,
    RedisConnection, RedisConnectionView, RedisNotificationMessage, RedisNotificationMessageView,
};
use crate::text::{
    colon_joined, decimal, decimal_text, join_with_colon, law_decimal_reads_back,
    law_joined_texts_come_apart, law_uuid_texts_differ, number_of, print_uuid, uuid_text,
};
use crate::value::{is_record, maps_members, msgpack, MsgView};
use vstd::hash_map::StringHashMap;
use vstd::prelude::*;

verus! {

/// For how many seconds Redis keeps what a replica registers.
pub const REDIS_KEY_TTL: u64 = 300;

/// The key of the record of a connection.
pub open spec fn connection_key(user: Seq<char>, id: u128) -> Seq<char> {
    colon_joined(colon_joined("vw:connections"@, user), uuid_text(id))
}

/// The key of the set of replicas that a user is connected to.
pub open spec fn presence_key(user: Seq<char>) -> Seq<char> {
    colon_joined("vw:presence"@, user)
}

/// The key by which a replica is known to be alive.
pub open spec fn server_key(server_instance: Seq<char>) -> Seq<char> {
    colon_joined("vw:server_instance"@, server_instance)
}

/// The channel for notifications of logged-in users.
pub open spec fn user_channel(prefix: Seq<char>) -> Seq<char> {
    colon_joined(prefix, "ws:user"@)
}

/// The channel for notifications of anonymous clients.
pub open spec fn anonymous_channel(prefix: Seq<char>) -> Seq<char> {
    colon_joined(prefix, "ws:anonymous"@)
}

/// Makes the key of the record of a connection.
fn make_connection_key(user: &str, id: u128) -> (key: String)
    ensures
        key@ == connection_key(user@, id),
{
    join_with_colon(&join_with_colon("vw:connections", user), &print_uuid(id))
}

/// Makes the name of the channel for notifications of logged-in users.
pub fn make_user_channel(prefix: &str) -> (channel: String)
    ensures
        channel@ == user_channel(prefix@),
{
    join_with_colon(prefix, "ws:user")
}

/// Makes the name of the channel for notifications of anonymous clients.
pub fn make_anonymous_channel(prefix: &str) -> (channel: String)
    ensures
        channel@ == anonymous_channel(prefix@),
{
    join_with_colon(prefix, "ws:anonymous")
}

/// What is asked of Redis to announce a replica.
pub open spec fn announcement(settings: RedisSettings, now: CivilDateTime) -> Seq<RedisCommandView> {
    if settings.connected {
        seq![
            RedisCommandView::SetTime {
                key: server_key(settings.server_instance),
                time: now.unix_seconds(),
                ttl: REDIS_KEY_TTL,
            },
        ]
    } else {
        Seq::empty()
    }
}

/// What is asked of Redis when a user has opened a connection.
pub open spec fn registration(
    settings: RedisSettings,
    user: Seq<char>,
    id: u128,
    now: CivilDateTime,
) -> Seq<RedisCommandView> {
    if settings.connected {
        seq![
            RedisCommandView::SetConnection {
                key: connection_key(user, id),
                connection: RedisConnectionView {
                    user_id: user,
                    connection_id: id,
                    server_instance: settings.server_instance,
                    connected_at: now,
                },
                ttl: REDIS_KEY_TTL,
            },
            RedisCommandView::AddMember {
                key: presence_key(user),
                member: settings.server_instance,
            },
            RedisCommandView::Expire { key: presence_key(user), ttl: REDIS_KEY_TTL },
        ]
    } else {
        Seq::empty()
    }
}

/// What is asked of Redis when a user may have left: where the replica holds no
/// connection of the user any more, the user is no longer present on it.
pub open spec fn departure(
    settings: RedisSettings,
    connections: Connections,
    user: Seq<char>,
) -> Seq<RedisCommandView> {
    if settings.connected && connections_of(connections, user).len() == 0 {
        seq![
            RedisCommandView::RemoveMember {
                key: presence_key(user),
                member: settings.server_instance,
            },
        ]
    } else {
        Seq::empty()
    }
}

/// What is asked of Redis when a user has closed a connection and these are left.
pub open spec fn unregistration(
    settings: RedisSettings,
    connections: Connections,
    user: Seq<char>,
    id: u128,
) -> Seq<RedisCommandView> {
    if settings.connected {
        seq![RedisCommandView::Delete { key: connection_key(user, id) }] + departure(
            settings,
            connections,
            user,
        )
    } else {
        Seq::empty()
    }
}

/// What is asked of Redis to pass a notification on.
pub open spec fn publication(
    settings: RedisSettings,
    message: RedisNotificationMessageView,
) -> Seq<RedisCommandView> {
    if settings.connected {
        seq![
            RedisCommandView::PublishNotification {
                channel: user_channel(settings.channel_prefix),
                message,
            },
        ]
    } else {
        Seq::empty()
    }
}

/// What is asked of Redis to pass a frame for an anonymous client on.
pub open spec fn anonymous_publication(
    settings: RedisSettings,
    token: Seq<char>,
    data: Seq<u8>,
) -> Seq<RedisCommandView> {
    if settings.connected {
        seq![
            RedisCommandView::PublishAnonymous {
                channel: anonymous_channel(settings.channel_prefix),
                frame: AnonymousMessageView {
                    token,
                    data,
                    server_instance: settings.server_instance,
                },
            },
        ]
    } else {
        Seq::empty()
    }
}

/// What a replica sends to its clients when it receives a notification: nothing
/// where it published it itself, and otherwise a frame to each connection of each
/// user that the notification is for.
pub open spec fn forwarded(
    server_instance: Seq<char>,
    connections: Connections,
    message: RedisNotificationMessageView,
) -> Seq<(u64, Seq<u8>)> {
    if message.server_instance == server_instance {
        Seq::empty()
    } else {
        fan_out(
            connections,
            message.target_users,
            payload_frame(message.payload, message.update_type, message.acting_device_id),
        )
    }
}

/// The name of a replica.
pub open spec fn instance_name(hostname: Option<Seq<char>>, process_id: u32) -> Seq<char> {
    colon_joined(
        match hostname {
            Some(name) => name,
            None => "localhost"@,
        },
        decimal(process_id as nat),
    )
}

/// A backend that shares its notifications through Redis.
pub struct RedisWebSocketBackend {
    server_instance_id: String,
    channel_prefix: String,
    connected: bool,
    local_connections: StringHashMap<Vec<(u128, u64)>>,
}

impl RedisWebSocketBackend {
    /// What the backend goes by.
    pub closed spec fn replica(&self) -> RedisSettings {
        RedisSettings {
            server_instance: self.server_instance_id@,
            channel_prefix: self.channel_prefix@,
            connected: self.connected,
        }
    }

    /// The connections that this replica holds.
    pub closed spec fn entries(&self) -> Connections {
        self.local_connections@.map_values(|entries: Vec<(u128, u64)>| entries@)
    }

    /// A backend that is not connected to Redis yet.
    pub fn new(hostname: Option<String>, process_id: u32, channel_prefix: String) -> (backend: Self)
        ensures
            backend.replica() == (RedisSettings {
                server_instance: instance_name(opt_text(hostname), process_id),
                channel_prefix: channel_prefix@,
                connected: false,
            }),
            backend.entries() == no_connections(),
    {
        let name = match &hostname {
            Some(name) => name.as_str(),
            None => "localhost",
        };
        let backend = RedisWebSocketBackend {
            server_instance_id: join_with_colon(name, &decimal_text(process_id as u64)),
            channel_prefix,
            connected: false,
            local_connections: StringHashMap::new(),
        };
        assert(backend.entries() =~= no_connections());
        backend
    }

    /// The name of this replica.
    pub fn server_instance_id(&self) -> (name: &String)
        ensures
            name@ == self.replica().server_instance,
    {
        &self.server_instance_id
    }

    /// The channels that the replica has to listen on.
    pub fn channels(&self) -> (channels: Vec<String>)
        ensures
            text_views(channels@) == seq![
                user_channel(self.replica().channel_prefix),
                anonymous_channel(self.replica().channel_prefix),
            ],
    {
        let channels = vec![
            make_user_channel(&self.channel_prefix),
            make_anonymous_channel(&self.channel_prefix),
        ];
        assert(text_views(channels@) =~= seq![
            user_channel(self.replica().channel_prefix),
            anonymous_channel(self.replica().channel_prefix),
        ]);
        channels
    }

    /// Takes note that there is a connection for commands, and announces the
    /// replica.
    pub fn initialize(&mut self) -> (commands: Vec<RedisCommand>)
        ensures
            final(self).replica() == (RedisSettings { connected: true, ..old(self).replica() }),
            final(self).entries() == old(self).entries(),
            exists|now: CivilDateTime|
                now.regular() && now.unix_seconds() >= 0
                    && command_views(commands@) == #[trigger] announcement(
                    final(self).replica(),
                    now,
                ),
    {
        self.connected = true;
        self.register_server_instance()
    }

    /// Announces the replica at the time of the call.
    pub fn register_server_instance(&self) -> (commands: Vec<RedisCommand>)
        ensures
            exists|now: CivilDateTime|
                now.regular() && now.unix_seconds() >= 0
                    && command_views(commands@) == #[trigger] announcement(
                    self.replica(),
                    now,
                ),
    {
        if self.connected {
            let now = utc_now();
            self.register_server_instance_at(now)
        } else {
            let commands: Vec<RedisCommand> = Vec::new();
            proof {
                lemma_latest_is_regular();
                assert(command_views(commands@) =~= announcement(
                    self.replica(),
                    latest_date_time(),
                ));
            }
            commands
        }
    }

    /// Announces the replica at a given time.
    pub fn register_server_instance_at(&self, now: CivilDateTime) -> (commands: Vec<RedisCommand>)
        requires
            now.valid(),
        ensures
            command_views(commands@) == announcement(self.replica(), now),
    {
        let mut commands: Vec<RedisCommand> = Vec::new();
        if self.connected {
            commands.push(
                RedisCommand::SetTime {
                    key: join_with_colon("vw:server_instance", &self.server_instance_id),
                    time: now.timestamp(),
                    ttl: REDIS_KEY_TTL,
                },
            );
        }
        assert(command_views(commands@) =~= announcement(self.replica(), now));
        commands
    }

    /// Registers a connection at the time of the call.
    pub fn register_connection(&self, user_id: &str, connection_id: u128) -> (commands: Vec<
        RedisCommand,
    >)
        ensures
            exists|now: CivilDateTime|
                now.regular() && now.unix_seconds() >= 0
                    && command_views(commands@) == #[trigger] registration(
                    self.replica(),
                    user_id@,
                    connection_id,
                    now,
                ),
    {
        if self.connected {
            let now = utc_now();
            self.register_connection_at(user_id, connection_id, now)
        } else {
            let commands: Vec<RedisCommand> = Vec::new();
            proof {
                lemma_latest_is_regular();
                assert(command_views(commands@) =~= registration(
                    self.replica(),
                    user_id@,
                    connection_id,
                    latest_date_time(),
                ));
            }
            commands
        }
    }

    /// Registers a connection at a given time.
    pub fn register_connection_at(
        &self,
        user_id: &str,
        connection_id: u128,
        now: CivilDateTime,
    ) -> (commands: Vec<RedisCommand>)
        ensures
            command_views(commands@) == registration(self.replica(), user_id@, connection_id, now),
    {
        let mut commands: Vec<RedisCommand> = Vec::new();
        if self.connected {
            commands.push(
                RedisCommand::SetConnection {
                    key: make_connection_key(user_id, connection_id),
                    connection: RedisConnection {
                        user_id: user_id.to_owned(),
                        connection_id,
                        server_instance: self.server_instance_id.clone(),
                        connected_at: now,
                    },
                    ttl: REDIS_KEY_TTL,
                },
            );
            commands.push(
                RedisCommand::AddMember {
                    key: join_with_colon("vw:presence", user_id),
                    member: self.server_instance_id.clone(),
                },
            );
            commands.push(
                RedisCommand::Expire {
                    key: join_with_colon("vw:presence", user_id),
                    ttl: REDIS_KEY_TTL,
                },
            );
        }
        assert(command_views(commands@) =~= registration(
            self.replica(),
            user_id@,
            connection_id,
            now,
        ));
        commands
    }

    /// Unregisters a connection that the replica holds no more, and the user with
    /// the last one.
    pub fn unregister_connection(&self, user_id: &str, connection_id: u128) -> (commands: Vec<
        RedisCommand,
    >)
        ensures
            command_views(commands@) == unregistration(
                self.replica(),
                self.entries(),
                user_id@,
                connection_id,
            ),
    {
        let mut commands: Vec<RedisCommand> = Vec::new();
        if self.connected {
            commands.push(
                RedisCommand::Delete { key: make_connection_key(user_id, connection_id) },
            );
            let mut gone = self.connection_unregistered(user_id);
            let ghost departed = gone@;
            let ghost before = commands@;
            commands.append(&mut gone);
            assert(command_views(commands@) =~= command_views(before) + command_views(departed));
            assert(command_views(before) =~= seq![
                RedisCommandView::Delete { key: connection_key(user_id@, connection_id) },
            ]);
        }
        assert(command_views(commands@) =~= unregistration(
            self.replica(),
            self.entries(),
            user_id@,
            connection_id,
        ));
        commands
    }

    /// Ends the presence of a user of whom the replica holds no connection any
    /// more.
    pub fn connection_unregistered(&self, user_id: &str) -> (commands: Vec<RedisCommand>)
        ensures
            command_views(commands@) == departure(self.replica(), self.entries(), user_id@),
    {
        let mut commands: Vec<RedisCommand> = Vec::new();
        let left = match self.lookup(user_id) {
            Some(entries) => entries.len() == 0,
            None => true,
        };
        if self.connected && left {
            commands.push(
                RedisCommand::RemoveMember {
                    key: join_with_colon("vw:presence", user_id),
                    member: self.server_instance_id.clone(),
                },
            );
        }
        assert(command_views(commands@) =~= departure(self.replica(), self.entries(), user_id@));
        commands
    }

    /// Passes a notification on to the other replicas.
    pub fn publish_notification(&self, message: RedisNotificationMessage) -> (commands: Vec<
        RedisCommand,
    >)
        ensures
            command_views(commands@) == publication(self.replica(), message@),
    {
        let mut commands: Vec<RedisCommand> = Vec::new();
        if self.connected {
            commands.push(
                RedisCommand::PublishNotification {
                    channel: make_user_channel(&self.channel_prefix),
                    message,
                },
            );
        }
        assert(command_views(commands@) =~= publication(self.replica(), message@));
        commands
    }

    /// Passes a frame for an anonymous client on to the other replicas.
    pub fn publish_anonymous(&self, token: &str, data: Vec<u8>) -> (commands: Vec<RedisCommand>)
        ensures
            command_views(commands@) == anonymous_publication(self.replica(), token@, data@),
    {
        let mut commands: Vec<RedisCommand> = Vec::new();
        if self.connected {
            commands.push(
                RedisCommand::PublishAnonymous {
                    channel: make_anonymous_channel(&self.channel_prefix),
                    frame: AnonymousMessage {
                        token: token.to_owned(),
                        data,
                        server_instance: self.server_instance_id.clone(),
                    },
                },
            );
        }
        assert(command_views(commands@) =~= anonymous_publication(self.replica(), token@, data@));
        commands
    }

    /// The connections of a user, if the replica holds any.
    fn lookup(&self, user_id: &str) -> (found: Option<&Vec<(u128, u64)>>)
        ensures
            found is Some == self.entries().contains_key(user_id@),
            found is Some ==> found->0@ == self.entries()[user_id@],
    {
        self.local_connections.get(user_id)
    }

    /// Adds a connection to those that this replica holds.
    pub(crate) fn insert_local(&mut self, user_id: &str, connection_id: u128, sender: u64)
        ensures
            final(self).replica() == old(self).replica(),
            final(self).entries() == with_connection(
                old(self).entries(),
                user_id@,
                connection_id,
                sender,
            ),
    {
        let mut entries = match self.lookup(user_id) {
            Some(entries) => copy_entries(entries),
            None => Vec::new(),
        };
        proof {
            assert(entries@ =~= connections_of(self.entries(), user_id@));
        }
        entries.push((connection_id, sender));
        self.local_connections.insert(user_id.to_owned(), entries);
        assert(self.entries() =~= with_connection(
            old(self).entries(),
            user_id@,
            connection_id,
            sender,
        ));
    }

    /// Removes a connection from those that this replica holds, and the user with
    /// the last one.
    pub(crate) fn remove_local(&mut self, user_id: &str, connection_id: u128)
        ensures
            final(self).replica() == old(self).replica(),
            final(self).entries() == without_connection_or_user(
                old(self).entries(),
                user_id@,
                connection_id,
            ),
    {
        if let Some(entries) = self.lookup(user_id) {
            let kept = retain_others(entries, connection_id);
            if kept.len() == 0 {
                self.local_connections.remove(user_id);
            } else {
                self.local_connections.insert(user_id.to_owned(), kept);
            }
        }
        assert(self.entries() =~= without_connection_or_user(
            old(self).entries(),
            user_id@,
            connection_id,
        ));
    }

    /// Addresses the same bytes to each connection of each of some users.
    pub fn address_users(&self, users: &Vec<String>, data: &Vec<u8>) -> (deliveries: Vec<Delivery>)
        ensures
            delivery_views(deliveries@) == fan_out(self.entries(), text_views(users@), data@),
    {
        let mut deliveries: Vec<Delivery> = Vec::new();
        let mut i: usize = 0;
        assert(delivery_views(deliveries@) =~= fan_out(
            self.entries(),
            text_views(users@).take(0),
            data@,
        ));
        while i < users.len()
            invariant
                i <= users@.len(),
                delivery_views(deliveries@) == fan_out(
                    self.entries(),
                    text_views(users@).take(i as int),
                    data@,
                ),
            decreases users.len() - i,
        {
            let ghost before = delivery_views(deliveries@);
            if let Some(entries) = self.lookup(&users[i]) {
                address_all(&mut deliveries, entries, data);
            }
            proof {
                let so_far = text_views(users@).take(i + 1);
                assert(so_far.drop_last() =~= text_views(users@).take(i as int));
                assert(so_far.last() == users@[i as int]@);
                assert(delivery_views(deliveries@) =~= before + addressed(
                    connections_of(self.entries(), so_far.last()),
                    data@,
                ));
            }
            i += 1;
        }
        assert(text_views(users@).take(i as int) =~= text_views(users@));
        deliveries
    }

    /// Takes a notification from the other replicas, or the echo of an own one.
    pub fn handle_notification_message(&self, notification: &RedisNotificationMessage) -> (deliveries:
        Vec<Delivery>)
        ensures
            delivery_views(deliveries@) == forwarded(
                self.replica().server_instance,
                self.entries(),
                notification@,
            ),
            notification@.server_instance != self.replica().server_instance && is_record(
                notification@.payload,
            ) ==> maps_members(payload_value(notification@.payload), notification@.payload),
    {
        if notification.server_instance == self.server_instance_id {
            let deliveries: Vec<Delivery> = Vec::new();
            assert(delivery_views(deliveries@) =~= Seq::empty());
            return deliveries;
        }
        let data = create_update_from_payload(
            &notification.payload,
            notification.update_type,
            notification.acting_device_id.clone(),
        );
        self.address_users(&notification.target_users, &data)
    }
}

/// Different connections have different keys, whoever they belong to.
pub proof fn law_connection_keys_differ(user: Seq<char>, id: u128, other: Seq<char>, other_id: u128)
    ensures
        connection_key(user, id) == connection_key(other, other_id) ==> user == other && id
            == other_id,
{
    let prefix = "vw:connections"@;
    let key = connection_key(user, id);
    let other_key = connection_key(other, other_id);
    law_uuid_texts_differ(id, other_id);
    law_uuid_texts_differ(other_id, id);
    if key == other_key {
        let n = key.len() as int;
        assert(key.subrange(n - 36, n) =~= uuid_text(id));
        assert(other_key.subrange(n - 36, n) =~= uuid_text(other_id));
        assert(key.subrange(prefix.len() + 1int, n - 37) =~= user);
        assert(other_key.subrange(prefix.len() + 1int, n - 37) =~= other);
    }
}

/// What is deleted when a connection is closed is what was set when it was opened,
/// and the set that a replica leaves with the last one is the one that it joined.
pub proof fn law_closing_undoes_opening(
    settings: RedisSettings,
    connections: Connections,
    user: Seq<char>,
    id: u128,
    now: CivilDateTime,
)
    requires
        settings.connected,
        connections_of(connections, user).len() == 0,
    ensures
        registration(settings, user, id, now)[0] matches RedisCommandView::SetConnection {
            key,
            ..
        } && unregistration(settings, connections, user, id)[0] == (RedisCommandView::Delete {
            key,
        }),
        registration(settings, user, id, now)[1] matches RedisCommandView::AddMember {
            key,
            member,
        } && unregistration(settings, connections, user, id)[1]
            == (RedisCommandView::RemoveMember { key, member }),
{
}

/// What the replicas have registered, as long as none of it has expired.
pub struct Registered {
    /// The records of connections by key.
    pub records: Map<Seq<char>, RedisConnectionView>,
    /// The sets by key.
    pub members: Map<Seq<char>, Set<Seq<char>>>,
}

impl Registered {
    /// The members of a set; one that nobody joined has none.
    pub open spec fn members_of(self, key: Seq<char>) -> Set<Seq<char>> {
        if self.members.contains_key(key) {
            self.members[key]
        } else {
            Set::empty()
        }
    }

    /// What is registered after one command.
    pub open spec fn after(self, command: RedisCommandView) -> Registered {
        match command {
            RedisCommandView::SetConnection { key, connection, .. } => Registered {
                records: self.records.insert(key, connection),
                ..self
            },
            RedisCommandView::Delete { key } => Registered {
                records: self.records.remove(key),
                ..self
            },
            RedisCommandView::AddMember { key, member } => Registered {
                members: self.members.insert(key, self.members_of(key).insert(member)),
                ..self
            },
            RedisCommandView::RemoveMember { key, member } => Registered {
                members: self.members.insert(key, self.members_of(key).remove(member)),
                ..self
            },
            _ => self,
        }
    }

    /// What is registered after some commands.
    pub open spec fn after_all(self, commands: Seq<RedisCommandView>) -> Registered
        decreases commands.len(),
    {
        if commands.len() == 0 {
            self
        } else {
            self.after_all(commands.drop_last()).after(commands.last())
        }
    }
}

proof fn lemma_after_registration(
    registered: Registered,
    settings: RedisSettings,
    user: Seq<char>,
    id: u128,
    now: CivilDateTime,
)
    requires
        settings.connected,
    ensures
        ({
            let after = registered.after_all(registration(settings, user, id, now));
            &&& after.records.contains_key(connection_key(user, id))
            &&& forall|key: Seq<char>|
                registered.records.contains_key(key) ==> #[trigger] after.records.contains_key(key)
            &&& after.members_of(presence_key(user)).contains(settings.server_instance)
        }),
{
    let commands = registration(settings, user, id, now);
    reveal_with_fuel(Registered::after_all, 4);
    assert(commands.drop_last() =~= commands.take(2));
    assert(commands.take(2).drop_last() =~= commands.take(1));
    assert(commands.take(1).drop_last() =~= commands.take(0));
}

/// A user who has two connections on a replica and closes one stays present on it:
/// all that is deleted is the record of that connection.
pub proof fn law_other_connection_keeps_presence(
    registered: Registered,
    settings: RedisSettings,
    connections: Connections,
    user: Seq<char>,
    id: u128,
    sender: u64,
    opened_at: CivilDateTime,
    other_id: u128,
    other_sender: u64,
    other_opened_at: CivilDateTime,
)
    requires
        settings.connected,
        id != other_id,
    ensures
        ({
            let opened = with_connection(
                with_connection(connections, user, id, sender),
                user,
                other_id,
                other_sender,
            );
            let left = without_connection_or_user(opened, user, id);
            let closing = unregistration(settings, left, user, id);
            let end = registered.after_all(
                registration(settings, user, id, opened_at),
            ).after_all(registration(settings, user, other_id, other_opened_at)).after_all(closing);
            &&& departure(settings, left, user) == Seq::<RedisCommandView>::empty()
            &&& closing == seq![RedisCommandView::Delete { key: connection_key(user, id) }]
            &&& !end.records.contains_key(connection_key(user, id))
            &&& end.records.contains_key(connection_key(user, other_id))
            &&& end.members_of(presence_key(user)).contains(settings.server_instance)
        }),
{
    let once = with_connection(connections, user, id, sender);
    let opened = with_connection(once, user, other_id, other_sender);
    let left = without_connection_or_user(opened, user, id);
    let entries = connections_of(once, user);
    assert(entries.push((other_id, other_sender)).drop_last() =~= entries);
    assert(others(entries.push((other_id, other_sender)), id).len() > 0) by {
        reveal(Seq::filter);
    }
    law_closed_connection_is_not_reached(opened, user, id, user);
    let closing = unregistration(settings, left, user, id);
    assert(closing =~= seq![RedisCommandView::Delete { key: connection_key(user, id) }]);
    let first = registered.after_all(registration(settings, user, id, opened_at));
    let second = first.after_all(registration(settings, user, other_id, other_opened_at));
    lemma_after_registration(registered, settings, user, id, opened_at);
    lemma_after_registration(first, settings, user, other_id, other_opened_at);
    law_connection_keys_differ(user, id, user, other_id);
    reveal_with_fuel(Registered::after_all, 2);
    assert(closing.drop_last() =~= Seq::empty());
    assert(second.after_all(closing) == second.after(closing[0]));
}

/// Everything that the clients of one replica are sent on account of a
/// notification: what the publisher sends at once, if this is the publisher, and
/// what is sent when the message comes in. Replicas are told apart by their names,
/// so this speaks of replicas with different names; two of the same name would drop
/// each other's messages.
pub open spec fn told(
    replica: RedisSettings,
    connections: Connections,
    publisher: RedisSettings,
    notification: NotificationView,
) -> Seq<(u64, Seq<u8>)> {
    let at_once = if replica.server_instance == publisher.server_instance {
        notification_plan(Some(publisher), connections, notification).deliveries
    } else {
        Seq::empty()
    };
    at_once + forwarded(
        replica.server_instance,
        connections,
        broadcast_message(notification, publisher.server_instance),
    )
}

/// A notification is published on the channel that every replica with the same
/// prefix listens on, and in the end every replica, the publisher among them, has
/// sent the same frame once to each connection of each user it is for. This holds
/// among replicas with different names.
pub proof fn law_every_replica_tells_its_clients(
    replica: RedisSettings,
    connections: Connections,
    publisher: RedisSettings,
    publisher_connections: Connections,
    notification: NotificationView,
)
    requires
        publisher.connected,
        replica.channel_prefix == publisher.channel_prefix,
    ensures
        notification_plan(Some(publisher), publisher_connections, notification).commands == seq![
            RedisCommandView::PublishNotification {
                channel: user_channel(replica.channel_prefix),
                message: broadcast_message(notification, publisher.server_instance),
            },
        ],
        told(replica, connections, publisher, notification) == fan_out(
            connections,
            notification.target_users,
            notification_frame(Some(publisher), notification),
        ),
{
    let plain = fan_out(
        connections,
        notification.target_users,
        notification_frame(Some(publisher), notification),
    );
    assert(told(replica, connections, publisher, notification) =~= plain);
}

/// A replica never forwards what it published itself.
pub proof fn law_own_echo_is_dropped(
    replica: RedisSettings,
    connections: Connections,
    notification: NotificationView,
)
    ensures
        forwarded(
            replica.server_instance,
            connections,
            broadcast_message(notification, replica.server_instance),
        ) == Seq::<(u64, Seq<u8>)>::empty(),
{
}

/// Without Redis, and while there is no connection to it, a notification stays on
/// this replica; its clients are told all the same.
pub proof fn law_without_redis_only_own_clients(
    settings: Option<RedisSettings>,
    connections: Connections,
    notification: NotificationView,
)
    requires
        settings is Some ==> !settings->0.connected,
    ensures
        notification_plan(settings, connections, notification).commands == Seq::<
            RedisCommandView,
        >::empty(),
        notification_plan(settings, connections, notification).deliveries == fan_out(
            connections,
            notification.target_users,
            notification_frame(settings, notification),
        ),
{
}

/// The two channels are never the same.
pub proof fn law_channels_differ(prefix: Seq<char>, other: Seq<char>)
    ensures
        user_channel(prefix) != anonymous_channel(other),
{
    reveal_strlit("ws:user");
    reveal_strlit("ws:anonymous");
    let user = user_channel(prefix);
    let anonymous = anonymous_channel(other);
    assert(user.last() == 'r');
    assert(anonymous.last() == 's');
}

/// Keys and channels are spelled as every replica spells them: a fixed beginning, and
/// then the whole user, identifier, replica or prefix.
pub proof fn law_keys_are_spelled_alike(
    user: Seq<char>,
    id: u128,
    server_instance: Seq<char>,
    prefix: Seq<char>,
)
    ensures
        connection_key(user, id) == "vw:connections:"@ + user + ":"@ + uuid_text(id),
        presence_key(user) == "vw:presence:"@ + user,
        server_key(server_instance) == "vw:server_instance:"@ + server_instance,
        user_channel(prefix) == prefix + ":ws:user"@,
        anonymous_channel(prefix) == prefix + ":ws:anonymous"@,
{
    reveal_strlit("vw:connections");
    reveal_strlit("vw:connections:");
    reveal_strlit("vw:presence");
    reveal_strlit("vw:presence:");
    reveal_strlit("vw:server_instance");
    reveal_strlit("vw:server_instance:");
    reveal_strlit(":");
    reveal_strlit("ws:user");
    reveal_strlit(":ws:user");
    reveal_strlit("ws:anonymous");
    reveal_strlit(":ws:anonymous");
    assert(connection_key(user, id) =~= "vw:connections:"@ + user + ":"@ + uuid_text(id));
    assert(presence_key(user) =~= "vw:presence:"@ + user);
    assert(server_key(server_instance) =~= "vw:server_instance:"@ + server_instance);
    assert(user_channel(prefix) =~= prefix + ":ws:user"@);
    assert(anonymous_channel(prefix) =~= prefix + ":ws:anonymous"@);
}

/// A replica bears the name of its host, or of the local host where that is not known,
/// and the number of its process behind a colon.
pub proof fn law_replica_is_named_by_host_and_process(hostname: Option<Seq<char>>, process_id: u32)
    ensures
        hostname matches Some(host) ==> {
            &&& instance_name(hostname, process_id).take(host.len() as int) == host
            &&& instance_name(hostname, process_id)[host.len() as int] == ':'
            &&& number_of(instance_name(hostname, process_id).skip(host.len() + 1int))
                == process_id
        },
        hostname is None ==> instance_name(hostname, process_id) == instance_name(
            Some("localhost"@),
            process_id,
        ),
{
    law_decimal_reads_back(process_id as nat);
    if hostname is Some {
        law_joined_texts_come_apart(hostname->0, decimal(process_id as nat));
    }
}

/// A replica announces itself, while it is connected, by its own key and the time, for
/// five minutes.
pub proof fn law_replica_announces_itself(settings: RedisSettings, now: CivilDateTime)
    ensures
        !settings.connected ==> announcement(settings, now).len() == 0,
        settings.connected ==> {
            &&& announcement(settings, now).len() == 1
            &&& announcement(settings, now)[0] matches RedisCommandView::SetTime { key, time, ttl }
            &&& key == "vw:server_instance:"@ + settings.server_instance
            &&& time == now.unix_seconds()
            &&& ttl == 300
        },
{
    law_keys_are_spelled_alike(Seq::empty(), 0, settings.server_instance, Seq::empty());
}

/// A connection that was opened is recorded, while the replica is connected, under its
/// own key with the user, the identifier, the replica and the time, and the replica
/// joins the user's presence, both for five minutes.
pub proof fn law_opened_connection_is_recorded(
    settings: RedisSettings,
    user: Seq<char>,
    id: u128,
    now: CivilDateTime,
)
    ensures
        !settings.connected ==> registration(settings, user, id, now).len() == 0,
        settings.connected ==> {
            let commands = registration(settings, user, id, now);
            &&& commands.len() == 3
            &&& commands[0] matches RedisCommandView::SetConnection { key, connection, ttl }
            &&& key == "vw:connections:"@ + user + ":"@ + uuid_text(id) && ttl == 300
            &&& connection.user_id == user && connection.connection_id == id
            &&& connection.server_instance == settings.server_instance
            &&& connection.connected_at == now
            &&& commands[1] matches RedisCommandView::AddMember { key: set, member }
            &&& set == "vw:presence:"@ + user && member == settings.server_instance
            &&& commands[2] matches RedisCommandView::Expire { key: expiring, ttl: seconds }
            &&& expiring == "vw:presence:"@ + user && seconds == 300
        },
{
    law_keys_are_spelled_alike(user, id, Seq::empty(), Seq::empty());
}

/// A connection that was closed has its own record deleted, while the replica is
/// connected, and the replica leaves the user's presence exactly where it holds no
/// connection of the user any more.
pub proof fn law_closed_connection_is_deleted(
    settings: RedisSettings,
    connections: Connections,
    user: Seq<char>,
    id: u128,
)
    ensures
        !settings.connected ==> unregistration(settings, connections, user, id).len() == 0,
        settings.connected ==> {
            let commands = unregistration(settings, connections, user, id);
            let gone = !connections.contains_key(user) || connections[user].len() == 0;
            &&& commands.len() == if gone {
                2int
            } else {
                1
            }
            &&& commands[0] matches RedisCommandView::Delete { key }
            &&& key == "vw:connections:"@ + user + ":"@ + uuid_text(id)
            &&& gone ==> {
                &&& commands[1] matches RedisCommandView::RemoveMember { key: set, member }
                &&& set == "vw:presence:"@ + user && member == settings.server_instance
            }
        },
        departure(settings, connections, user).len() > 0 <==> settings.connected && (
        !connections.contains_key(user) || connections[user].len() == 0),
{
    law_keys_are_spelled_alike(user, id, Seq::empty(), Seq::empty());
}

/// A message is published, while the replica is connected, whole and once, on the
/// channel of its kind, and not at all otherwise.
pub proof fn law_message_is_published_once(
    settings: RedisSettings,
    message: RedisNotificationMessageView,
    token: Seq<char>,
    data: Seq<u8>,
)
    ensures
        !settings.connected ==> publication(settings, message).len() == 0 && anonymous_publication(
            settings,
            token,
            data,
        ).len() == 0,
        settings.connected ==> {
            &&& publication(settings, message).len() == 1
            &&& publication(settings, message)[0] matches RedisCommandView::PublishNotification {
                channel,
                message: published,
            }
            &&& channel == settings.channel_prefix + ":ws:user"@
            &&& published == message
        },
        settings.connected ==> {
            &&& anonymous_publication(settings, token, data).len() == 1
            &&& anonymous_publication(settings, token, data)[0]
                matches RedisCommandView::PublishAnonymous { channel, frame }
            &&& channel == settings.channel_prefix + ":ws:anonymous"@
            &&& frame.token == token && frame.data == data
            &&& frame.server_instance == settings.server_instance
        },
{
    law_keys_are_spelled_alike(Seq::empty(), 0, Seq::empty(), settings.channel_prefix);
}

/// A notification of another replica, whatever it is about and whichever device it
/// names, goes to exactly the connections of the users it is for; the bytes are an
/// update with its kind, its device and what its payload reads as. Only a notification
/// of the replica itself goes to nobody.
pub proof fn law_foreign_notification_is_forwarded(
    server_instance: Seq<char>,
    connections: Connections,
    message: RedisNotificationMessageView,
    sender: u64,
    rest: Seq<u8>,
)
    ensures
        message.server_instance == server_instance ==> forwarded(
            server_instance,
            connections,
            message,
        ).len() == 0,
        message.server_instance != server_instance ==> exists|told: MsgView, bytes: Seq<u8>|
            {
                &&& #[trigger] tells_update(
                    told,
                    payload_value(message.payload),
                    message.update_type,
                    message.acting_device_id,
                )
                &&& read_frame(bytes + rest) == Some((msgpack(told), rest))
                &&& #[trigger] forwarded(server_instance, connections, message).contains(
                    (sender, bytes),
                ) <==> serves(connections, message.target_users, sender)
                &&& forwarded(server_instance, connections, message) == fan_out(
                    connections,
                    message.target_users,
                    bytes,
                )
            },
{
    if message.server_instance != server_instance {
        let bytes = payload_frame(message.payload, message.update_type, message.acting_device_id);
        let told = update_message(
            payload_value(message.payload),
            message.update_type,
            message.acting_device_id,
        );
        law_update_tells_what_it_was_given(
            payload_value(message.payload),
            message.update_type,
            message.acting_device_id,
        );
        law_value_reads_back(told, rest);
        law_fan_out_reaches_exactly(connections, message.target_users, bytes, sender, bytes);
        assert(tells_update(
            told,
            payload_value(message.payload),
            message.update_type,
            message.acting_device_id,
        ));
        assert(forwarded(server_instance, connections, message).contains((sender, bytes))
            <==> serves(connections, message.target_users, sender));
    }
}

}
