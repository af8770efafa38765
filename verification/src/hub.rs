//! The two hubs that clients connect to: who is let in, how a connection is opened
//! and closed, and how it answers to what happens while it is open.

use crate::backend::{
    after_close, closing_commands, opening_commands, RedisSettings, WebSocketBackend,
    WebSocketBackendType,
};
use crate::config::Config;
use crate::connections::{
    connections_of, law_open_then_close_restores, with_connection, Connections,
};
use crate::datetime::CivilDateTime;
use crate::error::Error;
use crate::frame::value_frame;
use crate::message::{create_ping, ping_message};
use crate::redis_command::{command_views, RedisCommand};
use crate::text::{strip_suffix, without_suffix};
use crate::users::AnonymousWebSocketSubscriptions;
use crate::value::MsgView;
use vstd::prelude::*;

verus! {

/// How many messages wait for a client before senders have to wait themselves.
pub const CHANNEL_CAPACITY: usize = 100;

/// After how many seconds a client is pinged again.
pub const PING_INTERVAL_SECONDS: u64 = 15;

/// What ends a text message of the protocol.
pub const RECORD_SEPARATOR: char = '\x1e';

/// A route of the server.
#[derive(Debug, PartialEq, Eq, Structural, Clone, Copy)]
pub enum HubRoute {
    /// For logged-in clients.
    Users,
    /// For clients that wait for the answer to a login request.
    Anonymous,
}

impl HubRoute {
    /// Where the route is mounted.
    pub open spec fn spec_path(self) -> Seq<char> {
        match self {
            HubRoute::Users => "/hub"@,
            HubRoute::Anonymous => "/anonymous-hub"@,
        }
    }

    /// Where the route is mounted.
    pub fn path(self) -> (path: &'static str)
        ensures
            path@ == self.spec_path(),
    {
        match self {
            HubRoute::Users => "/hub",
            HubRoute::Anonymous => "/anonymous-hub",
        }
    }
}

/// The routes to mount: both hubs, or none where WebSockets are switched off.
pub fn routes(config: &Config) -> (routes: Vec<HubRoute>)
    ensures
        routes@ == if config.enable_websocket {
            seq![HubRoute::Users, HubRoute::Anonymous]
        } else {
            Seq::empty()
        },
{
    if config.enable_websocket {
        let routes = vec![HubRoute::Users, HubRoute::Anonymous];
        assert(routes@ =~= seq![HubRoute::Users, HubRoute::Anonymous]);
        routes
    } else {
        Vec::new()
    }
}

/// The access token of a client: the one in the query, or else the one in the
/// header. Without either the client is refused.
pub fn access_token(query: Option<String>, header: Option<String>) -> (token: Result<String, Error>)
    ensures
        query is Some ==> token == Ok::<String, Error>(query->0),
        query is None && header is Some ==> token == Ok::<String, Error>(header->0),
        query is None && header is None ==> token is Err && token->Err_0.refuses_with(
            "Invalid claim"@,
            401,
        ),
{
    match query {
        Some(token) => Ok(token),
        None => match header {
            Some(token) => Ok(token),
            None => Err(Error::status("Invalid claim", 401)),
        },
    }
}

/// The user that a token was issued to. A token that does not verify is refused.
pub fn authenticated_user(subject: Option<String>) -> (user: Result<String, Error>)
    ensures
        subject is Some ==> user == Ok::<String, Error>(subject->0),
        subject is None ==> user is Err && user->Err_0.refuses_with("Invalid token"@, 401),
{
    match subject {
        Some(user) => Ok(user),
        None => Err(Error::status("Invalid token", 401)),
    }
}

/// Whether an identifier is marked as a random one: version 4 of the standard
/// variant.
pub open spec fn is_random_uuid(id: u128) -> bool {
    &&& (id as int / 0x1000_0000_0000_0000_0000) % 16 == 4
    &&& (id as int / 0x4000_0000_0000_0000) % 4 == 2
}

/// `uuid::Uuid::new_v4`: an identifier with the marks of a random one. That it is
/// new is a matter of chance and not stated.
#[verifier::external_body]
fn new_entry_uuid() -> (id: u128)
    ensures
        is_random_uuid(id),
{
    uuid::Uuid::new_v4().as_u128()
}

/// A connection of a logged-in client that has to be removed when it ends.
#[derive(Debug)]
pub struct WSEntryMapGuard {
    pub user_uuid: String,
    pub entry_uuid: u128,
    pub addr: String,
}

impl WSEntryMapGuard {
    /// Takes charge of a connection.
    pub fn new(user_uuid: String, entry_uuid: u128, addr: String) -> (guard: Self)
        ensures
            guard.user_uuid == user_uuid,
            guard.entry_uuid == entry_uuid,
            guard.addr == addr,
    {
        WSEntryMapGuard { user_uuid, entry_uuid, addr }
    }

    /// Removes the connection when it has ended.
    pub fn close(self, backend: &mut WebSocketBackendType) -> (commands: Vec<RedisCommand>)
        ensures
            final(backend).settings() == old(backend).settings(),
            final(backend).local_connections() == after_close(
                old(backend).settings(),
                old(backend).local_connections(),
                self.user_uuid@,
                self.entry_uuid,
            ),
            command_views(commands@) == closing_commands(
                old(backend).settings(),
                final(backend).local_connections(),
                self.user_uuid@,
                self.entry_uuid,
            ),
    {
        backend.remove_connection(&self.user_uuid, self.entry_uuid)
    }
}

/// Opens a connection of a logged-in client under a random identifier.
pub fn open_connection(
    backend: &mut WebSocketBackendType,
    user_id: String,
    addr: String,
    sender: u64,
) -> (opened: (WSEntryMapGuard, Vec<RedisCommand>))
    ensures
        is_random_uuid(opened.0.entry_uuid),
        opened.0.user_uuid@ == user_id@,
        opened.0.addr == addr,
        final(backend).settings() == old(backend).settings(),
        final(backend).local_connections() == with_connection(
            old(backend).local_connections(),
            user_id@,
            opened.0.entry_uuid,
            sender,
        ),
        exists|now: CivilDateTime|
            now.regular() && now.unix_seconds() >= 0
                && command_views(opened.1@) == #[trigger] opening_commands(
                old(backend).settings(),
                user_id@,
                opened.0.entry_uuid,
                now,
            ),
{
    let entry_uuid = new_entry_uuid();
    let commands = backend.add_connection(&user_id, entry_uuid, sender);
    (WSEntryMapGuard::new(user_id, entry_uuid, addr), commands)
}

/// What comes of opening a connection, given what came of registering it. A
/// client whose connection could not be registered is refused.
pub fn connection_registered(guard: WSEntryMapGuard, outcome: Result<(), Error>) -> (accepted:
    Result<WSEntryMapGuard, Error>)
    ensures
        outcome is Ok ==> accepted == Ok::<WSEntryMapGuard, Error>(guard),
        outcome is Err ==> accepted is Err && accepted->Err_0.refuses_with(
            "Failed to register WebSocket connection"@,
            500,
        ),
{
    match outcome {
        Ok(()) => Ok(guard),
        Err(_) => Err(Error::status("Failed to register WebSocket connection", 500)),
    }
}

/// A connection of an anonymous client that has to be removed when it ends.
#[derive(Debug)]
pub struct WSAnonymousEntryMapGuard {
    pub token: String,
    pub addr: String,
}

impl WSAnonymousEntryMapGuard {
    /// Takes charge of a connection.
    pub fn new(token: String, addr: String) -> (guard: Self)
        ensures
            guard.token == token,
            guard.addr == addr,
    {
        WSAnonymousEntryMapGuard { token, addr }
    }

    /// Removes the connection when it has ended.
    pub fn close(self, subscriptions: &mut AnonymousWebSocketSubscriptions)
        ensures
            final(subscriptions).subscribers() == old(subscriptions).subscribers().remove(
                self.token@,
            ),
    {
        subscriptions.unsubscribe(&self.token)
    }
}

/// Opens a connection of an anonymous client under its token.
pub fn open_anonymous_connection(
    subscriptions: &mut AnonymousWebSocketSubscriptions,
    token: String,
    addr: String,
    sender: u64,
) -> (guard: WSAnonymousEntryMapGuard)
    ensures
        guard.token == token,
        guard.addr == addr,
        final(subscriptions).subscribers() == old(subscriptions).subscribers().insert(
            token@,
            sender,
        ),
{
    subscriptions.subscribe(&token, sender);
    WSAnonymousEntryMapGuard::new(token, addr)
}

/// What a client says first: the protocol that it wants to speak.
#[derive(Debug)]
pub struct InitialMessage {
    pub protocol: String,
    pub version: i32,
}

impl InitialMessage {
    /// Whether this asks for the protocol that the hubs speak.
    pub open spec fn is_ours(self) -> bool {
        self.protocol@ == "messagepack"@ && self.version == 1
    }

    /// Whether this asks for the protocol that the hubs speak.
    pub fn asks_for_messagepack(&self) -> (ours: bool)
        ensures
            ours == self.is_ours(),
    {
        self.protocol == "messagepack".to_owned() && self.version == 1
    }
}

/// The part of a text message in which an initial message is looked for: all but
/// a record separator at its end.
pub fn initial_message_text<'a>(message: &'a str) -> (text: &'a str)
    ensures
        text@ == without_suffix(message@, RECORD_SEPARATOR),
        message@.len() > 0 && message@.last() == '\x1e' ==> message@ == text@.push('\x1e'),
        message@.len() == 0 || message@.last() != '\x1e' ==> text@ == message@,
{
    strip_suffix(message, RECORD_SEPARATOR)
}

/// A message from a client. `M` is the type of messages on the wire.
pub enum ClientMessage<M> {
    Ping(Vec<u8>),
    Pong(Vec<u8>),
    /// A text message, with the initial message that it reads as, if it does.
    Text(Option<InitialMessage>),
    Close,
    /// Anything else.
    Other(M),
}

/// What happens to an open connection.
pub enum HubEvent<M> {
    /// The client sent a message.
    Received(ClientMessage<M>),
    /// There is nothing more to come from the client, or the transport failed.
    ClientGone,
    /// A message for the client came in.
    Queued(M),
    /// No message for the client can come in any more.
    QueueClosed,
    /// It is time to ping the client.
    Tick,
}

/// A message to a client.
pub enum HubReply<M> {
    Pong(Vec<u8>),
    Ping(Vec<u8>),
    Binary(Vec<u8>),
    /// A message as it was handed in.
    Verbatim(M),
}

/// What to do about an event.
pub enum HubAction<M> {
    /// Send a message to the client and wait for the next event.
    Reply(HubReply<M>),
    /// Wait for the next event.
    Wait,
    /// End the connection.
    Stop,
}

/// The answer to an initial message: an empty JSON object and a record separator.
pub open spec fn initial_response() -> Seq<u8> {
    seq![0x7b, 0x7d, 0x1e]
}

/// Whether an action is the right one for an event.
pub open spec fn reacts<M>(event: HubEvent<M>, action: HubAction<M>) -> bool {
    match event {
        HubEvent::Received(message) => match message {
            ClientMessage::Ping(data) => action == HubAction::Reply(HubReply::<M>::Pong(data)),
            ClientMessage::Pong(_) => action is Wait,
            ClientMessage::Text(initial) => if initial is Some && initial->0.is_ours() {
                action matches HubAction::Reply(HubReply::Binary(data)) && data@
                    == initial_response()
            } else {
                action is Wait
            },
            ClientMessage::Close => action is Stop,
            ClientMessage::Other(message) => action == HubAction::Reply(
                HubReply::Verbatim(message),
            ),
        },
        HubEvent::ClientGone => action is Stop,
        HubEvent::Queued(message) => action == HubAction::Reply(HubReply::Verbatim(message)),
        HubEvent::QueueClosed => action is Stop,
        HubEvent::Tick => action matches HubAction::Reply(HubReply::Ping(data)) && data@
            == value_frame(ping_message()),
    }
}

/// Decides what to do about an event on an open connection. Both hubs decide
/// alike.
pub fn hub_step<M>(event: HubEvent<M>) -> (action: HubAction<M>)
    ensures
        reacts(event, action),
{
    match event {
        HubEvent::Received(message) => match message {
            ClientMessage::Ping(data) => HubAction::Reply(HubReply::Pong(data)),
            ClientMessage::Pong(_) => HubAction::Wait,
            ClientMessage::Text(initial) => {
                let ours = match &initial {
                    Some(initial) => initial.asks_for_messagepack(),
                    None => false,
                };
                if ours {
                    let data: Vec<u8> = vec![0x7b, 0x7d, 0x1e];
                    assert(data@ =~= initial_response());
                    HubAction::Reply(HubReply::Binary(data))
                } else {
                    HubAction::Wait
                }
            },
            ClientMessage::Close => HubAction::Stop,
            ClientMessage::Other(message) => HubAction::Reply(HubReply::Verbatim(message)),
        },
        HubEvent::ClientGone => HubAction::Stop,
        HubEvent::Queued(message) => HubAction::Reply(HubReply::Verbatim(message)),
        HubEvent::QueueClosed => HubAction::Stop,
        HubEvent::Tick => HubAction::Reply(HubReply::Ping(create_ping())),
    }
}

/// A connection that was opened under a new identifier and closed again has left
/// no trace: every user has the connections they had.
pub proof fn law_closed_connection_leaves_no_trace(
    settings: Option<RedisSettings>,
    connections: Connections,
    user: Seq<char>,
    id: u128,
    sender: u64,
    any: Seq<char>,
)
    requires
        forall|i: int|
            0 <= i < connections_of(connections, user).len() ==> (#[trigger] connections_of(
                connections,
                user,
            )[i]).0 != id,
    ensures
        connections_of(
            after_close(settings, with_connection(connections, user, id, sender), user, id),
            any,
        ) == connections_of(connections, any),
{
    law_open_then_close_restores(connections, user, id, sender, any);
}

/// A connection ends exactly when the client says so or is gone, or when nothing
/// can come in for it any more, and nothing is sent then.
pub proof fn law_connection_ends<M>(event: HubEvent<M>, action: HubAction<M>)
    requires
        reacts(event, action),
    ensures
        action is Stop <==> event == HubEvent::Received(ClientMessage::<M>::Close) || event
            is ClientGone || event is QueueClosed,
{
}

/// How each event is answered: a ping by a pong with the same data, the protocol of the
/// hubs by an empty JSON object and a record separator, time by a ping frame, and what
/// is queued, or comes in and is none of these, by itself. Pongs and other text are not
/// answered.
pub proof fn law_hub_answers<M>(event: HubEvent<M>, action: HubAction<M>)
    requires
        reacts(event, action),
    ensures
        event matches HubEvent::Received(ClientMessage::Ping(data)) ==> (action
            matches HubAction::Reply(HubReply::Pong(reply)) && reply@ == data@),
        event matches HubEvent::Received(ClientMessage::Pong(_)) ==> action is Wait,
        event matches HubEvent::Received(ClientMessage::Text(initial)) ==> {
            let ours = initial is Some && initial->0.protocol@ == "messagepack"@
                && initial->0.version == 1;
            &&& ours ==> (action matches HubAction::Reply(HubReply::Binary(reply)) && reply@ == seq![
                0x7bu8,
                0x7du8,
                0x1eu8,
            ])
            &&& !ours ==> action is Wait
        },
        event matches HubEvent::Received(ClientMessage::Other(message)) ==> (action
            matches HubAction::Reply(HubReply::Verbatim(reply)) && reply == message),
        event matches HubEvent::Queued(message) ==> (action matches HubAction::Reply(
            HubReply::Verbatim(reply),
        ) && reply == message),
        event is Tick ==> (action matches HubAction::Reply(HubReply::Ping(reply)) && reply@
            == value_frame(MsgView::Array(seq![MsgView::Integer(6)]))),
        event is ClientGone || event is QueueClosed || event == HubEvent::Received(
            ClientMessage::<M>::Close,
        ) ==> action is Stop,
{
    if event is Tick {
        assert(ping_message() == MsgView::Array(seq![MsgView::Integer(6)]));
    }
}

/// Where each hub is mounted.
pub proof fn law_hubs_are_mounted_apart(route: HubRoute)
    ensures
        route.spec_path() == "/hub"@ <==> route is Users,
        route.spec_path() == "/anonymous-hub"@ <==> route is Anonymous,
{
    reveal_strlit("/hub");
    reveal_strlit("/anonymous-hub");
    assert("/hub"@.len() != "/anonymous-hub"@.len());
}

/// How many messages wait for a client, how often it is pinged, and what ends a text.
pub proof fn law_hub_measures()
    ensures
        CHANNEL_CAPACITY == 100,
        PING_INTERVAL_SECONDS == 15,
        RECORD_SEPARATOR as int == 0x1e,
{
}

}
