//! What a replica asks of Redis. The commands are carried out in order, and the
//! first that fails ends the list.

use crate::datetime::CivilDateTime;
use crate::message::{opt_text, UpdateType};
use crate::notification::text_views;
use crate::value::{Json, JsonView};
use vstd::prelude::*;

verus! {

/// A notification on its way to the other replicas.
#[derive(Debug)]
pub struct RedisNotificationMessage {
    pub update_type: UpdateType,
    pub payload: Json,
    pub acting_device_id: Option<String>,
    pub target_users: Vec<String>,
    pub server_instance: String,
}

/// What a [`RedisNotificationMessage`] stands for.
pub struct RedisNotificationMessageView {
    pub update_type: UpdateType,
    pub payload: JsonView,
    pub acting_device_id: Option<Seq<char>>,
    pub target_users: Seq<Seq<char>>,
    pub server_instance: Seq<char>,
}

impl View for RedisNotificationMessage {
    type V = RedisNotificationMessageView;

    open spec fn view(&self) -> RedisNotificationMessageView {
        RedisNotificationMessageView {
            update_type: self.update_type,
            payload: self.payload@,
            acting_device_id: opt_text(self.acting_device_id),
            target_users: text_views(self.target_users@),
            server_instance: self.server_instance@,
        }
    }
}

/// A frame for an anonymous client on its way to the other replicas.
#[derive(Debug)]
pub struct AnonymousMessage {
    pub token: String,
    pub data: Vec<u8>,
    pub server_instance: String,
}

/// What an [`AnonymousMessage`] stands for.
pub struct AnonymousMessageView {
    pub token: Seq<char>,
    pub data: Seq<u8>,
    pub server_instance: Seq<char>,
}

impl View for AnonymousMessage {
    type V = AnonymousMessageView;

    open spec fn view(&self) -> AnonymousMessageView {
        AnonymousMessageView {
            token: self.token@,
            data: self.data@,
            server_instance: self.server_instance@,
        }
    }
}

/// The record of a connection that a replica holds.
#[derive(Debug)]
pub struct RedisConnection {
    pub user_id: String,
    pub connection_id: u128,
    pub server_instance: String,
    pub connected_at: CivilDateTime,
}

/// What a [`RedisConnection`] stands for.
pub struct RedisConnectionView {
    pub user_id: Seq<char>,
    pub connection_id: u128,
    pub server_instance: Seq<char>,
    pub connected_at: CivilDateTime,
}

impl View for RedisConnection {
    type V = RedisConnectionView;

    open spec fn view(&self) -> RedisConnectionView {
        RedisConnectionView {
            user_id: self.user_id@,
            connection_id: self.connection_id,
            server_instance: self.server_instance@,
            connected_at: self.connected_at,
        }
    }
}

/// One command to Redis.
#[derive(Debug)]
pub enum RedisCommand {
    /// Set a key to a time in seconds, to be forgotten after some seconds.
    SetTime { key: String, time: i64, ttl: u64 },
    /// Set a key to the record of a connection, to be forgotten after some seconds.
    SetConnection { key: String, connection: RedisConnection, ttl: u64 },
    /// Add a member to a set.
    AddMember { key: String, member: String },
    /// Remove a member from a set.
    RemoveMember { key: String, member: String },
    /// Have a key forgotten after some seconds.
    Expire { key: String, ttl: u64 },
    /// Forget a key.
    Delete { key: String },
    /// Publish a notification on a channel.
    PublishNotification { channel: String, message: RedisNotificationMessage },
    /// Publish a frame for an anonymous client on a channel.
    PublishAnonymous { channel: String, frame: AnonymousMessage },
}

/// What a [`RedisCommand`] stands for.
pub enum RedisCommandView {
    SetTime { key: Seq<char>, time: int, ttl: u64 },
    SetConnection { key: Seq<char>, connection: RedisConnectionView, ttl: u64 },
    AddMember { key: Seq<char>, member: Seq<char> },
    RemoveMember { key: Seq<char>, member: Seq<char> },
    Expire { key: Seq<char>, ttl: u64 },
    Delete { key: Seq<char> },
    PublishNotification { channel: Seq<char>, message: RedisNotificationMessageView },
    PublishAnonymous { channel: Seq<char>, frame: AnonymousMessageView },
}

impl View for RedisCommand {
    type V = RedisCommandView;

    open spec fn view(&self) -> RedisCommandView {
        match self {
            RedisCommand::SetTime { key, time, ttl } => RedisCommandView::SetTime {
                key: key@,
                time: *time as int,
                ttl: *ttl,
            },
            RedisCommand::SetConnection { key, connection, ttl } => {
                RedisCommandView::SetConnection { key: key@, connection: connection@, ttl: *ttl }
            },
            RedisCommand::AddMember { key, member } => RedisCommandView::AddMember {
                key: key@,
                member: member@,
            },
            RedisCommand::RemoveMember { key, member } => RedisCommandView::RemoveMember {
                key: key@,
                member: member@,
            },
            RedisCommand::Expire { key, ttl } => RedisCommandView::Expire { key: key@, ttl: *ttl },
            RedisCommand::Delete { key } => RedisCommandView::Delete { key: key@ },
            RedisCommand::PublishNotification { channel, message } => {
                RedisCommandView::PublishNotification { channel: channel@, message: message@ }
            },
            RedisCommand::PublishAnonymous { channel, frame } => {
                RedisCommandView::PublishAnonymous { channel: channel@, frame: frame@ }
            },
        }
    }
}

/// What a list of commands asks for, in order.
pub open spec fn command_views(commands: Seq<RedisCommand>) -> Seq<RedisCommandView> {
    commands.map_values(|command: RedisCommand| command@)
}

/// A list of commands stands for exactly what its commands hold: their keys, members,
/// times, channels and messages.
pub proof fn law_commands_keep_everything(commands: Seq<RedisCommand>, i: int)
    ensures
        command_views(commands).len() == commands.len(),
        0 <= i < commands.len() ==> match commands[i] {
            RedisCommand::SetTime { key, time, ttl } => {
                &&& command_views(commands)[i] matches RedisCommandView::SetTime {
                    key: k,
                    time: t,
                    ttl: l,
                }
                &&& k == key@ && t == time && l == ttl
            },
            RedisCommand::SetConnection { key, connection, ttl } => {
                &&& command_views(commands)[i] matches RedisCommandView::SetConnection {
                    key: k,
                    connection: c,
                    ttl: l,
                }
                &&& k == key@ && l == ttl
                &&& c.user_id == connection.user_id@
                &&& c.connection_id == connection.connection_id
                &&& c.server_instance == connection.server_instance@
                &&& c.connected_at == connection.connected_at
            },
            RedisCommand::AddMember { key, member } => {
                &&& command_views(commands)[i] matches RedisCommandView::AddMember {
                    key: k,
                    member: m,
                }
                &&& k == key@ && m == member@
            },
            RedisCommand::RemoveMember { key, member } => {
                &&& command_views(commands)[i] matches RedisCommandView::RemoveMember {
                    key: k,
                    member: m,
                }
                &&& k == key@ && m == member@
            },
            RedisCommand::Expire { key, ttl } => {
                &&& command_views(commands)[i] matches RedisCommandView::Expire { key: k, ttl: l }
                &&& k == key@ && l == ttl
            },
            RedisCommand::Delete { key } => {
                &&& command_views(commands)[i] matches RedisCommandView::Delete { key: k }
                &&& k == key@
            },
            RedisCommand::PublishNotification { channel, message } => {
                &&& command_views(commands)[i] matches RedisCommandView::PublishNotification {
                    channel: c,
                    message: m,
                }
                &&& c == channel@ && m == message@
            },
            RedisCommand::PublishAnonymous { channel, frame } => {
                &&& command_views(commands)[i] matches RedisCommandView::PublishAnonymous {
                    channel: c,
                    frame: f,
                }
                &&& c == channel@ && f == frame@
            },
        },
{
}

/// A message between replicas stands for exactly what it holds.
pub proof fn law_messages_keep_everything(
    message: RedisNotificationMessage,
    frame: AnonymousMessage,
    i: int,
)
    ensures
        message@.update_type == message.update_type,
        message@.payload == message.payload@,
        message.acting_device_id is None <==> message@.acting_device_id is None,
        message.acting_device_id matches Some(device) ==> message@.acting_device_id == Some(
            device@,
        ),
        message@.target_users.len() == message.target_users@.len(),
        0 <= i < message.target_users@.len() ==> message@.target_users[i]
            == message.target_users@[i]@,
        message@.server_instance == message.server_instance@,
        frame@.token == frame.token@,
        frame@.data == frame.data@,
        frame@.server_instance == frame.server_instance@,
{
}

}
