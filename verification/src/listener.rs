//! The listener that takes in what the replicas publish, step by step.

use crate::backend::{notification_frame, notification_plan, RedisSettings};
use crate::connections::{
    delivery_views, fan_out, law_fan_out_reaches_exactly, serves, Connections, Delivery,
};
use crate::message::payload_frame;
use crate::notification::NotificationView;
use crate::redis_backend::{
    anonymous_channel, forwarded, law_channels_differ, law_keys_are_spelled_alike,
    make_anonymous_channel, make_user_channel, user_channel, RedisWebSocketBackend,
};
use crate::redis_command::{AnonymousMessage, RedisCommandView, RedisNotificationMessage};
use crate::users::{anonymous_plan, forwarded_to_token, AnonymousWebSocketSubscriptions};
use vstd::prelude::*;

verus! {

/// For how many seconds the listener waits before it tries to subscribe again.
pub const RETRY_PAUSE_SECONDS: u64 = 5;

/// What is published on a channel.
#[derive(Debug, PartialEq, Eq, Structural, Clone, Copy)]
pub enum ChannelKind {
    /// Notifications of logged-in users.
    Users,
    /// Frames for anonymous clients.
    Anonymous,
}

/// What is published on a channel, if this replica listens on it.
pub open spec fn channel_kind(prefix: Seq<char>, channel: Seq<char>) -> Option<ChannelKind> {
    if channel == user_channel(prefix) {
        Some(ChannelKind::Users)
    } else if channel == anonymous_channel(prefix) {
        Some(ChannelKind::Anonymous)
    } else {
        None
    }
}

/// Says what is published on a channel, if this replica listens on it.
pub fn kind_of_channel(prefix: &str, channel: &String) -> (kind: Option<ChannelKind>)
    ensures
        kind == channel_kind(prefix@, channel@),
{
    if *channel == make_user_channel(prefix) {
        Some(ChannelKind::Users)
    } else if *channel == make_anonymous_channel(prefix) {
        Some(ChannelKind::Anonymous)
    } else {
        None
    }
}

/// Something that a replica published.
#[derive(Debug)]
pub enum Published {
    Notification(RedisNotificationMessage),
    Anonymous(AnonymousMessage),
    /// It does not read as what is published on its channel.
    Unreadable,
}

/// What happens to the listener.
#[derive(Debug)]
pub enum ListenerEvent {
    Started,
    Subscribed,
    SubscribeFailed,
    Received(Published),
    StreamFailed,
    PauseOver,
}

/// What the listener does next.
#[derive(Debug, PartialEq, Eq, Structural, Clone, Copy)]
pub enum ListenerAction {
    /// Subscribe to the channels.
    Subscribe,
    /// Wait for something to be published.
    Receive,
    /// Do nothing for some seconds.
    Pause { seconds: u64 },
}

/// What the listener does next after an event. A subscription that fails is tried
/// again after a pause, a stream that breaks off is subscribed to again at once,
/// and no message stops the listener.
pub open spec fn next_action(event: ListenerEvent) -> ListenerAction {
    match event {
        ListenerEvent::Started => ListenerAction::Subscribe,
        ListenerEvent::Subscribed => ListenerAction::Receive,
        ListenerEvent::SubscribeFailed => ListenerAction::Pause { seconds: RETRY_PAUSE_SECONDS },
        ListenerEvent::Received(_) => ListenerAction::Receive,
        ListenerEvent::StreamFailed => ListenerAction::Subscribe,
        ListenerEvent::PauseOver => ListenerAction::Subscribe,
    }
}

/// What the clients of this replica are sent on account of an event.
pub open spec fn event_deliveries(
    backend: RedisWebSocketBackend,
    subscriptions: AnonymousWebSocketSubscriptions,
    event: ListenerEvent,
) -> Seq<(u64, Seq<u8>)> {
    match event {
        ListenerEvent::Received(Published::Notification(message)) => forwarded(
            backend.replica().server_instance,
            backend.entries(),
            message@,
        ),
        ListenerEvent::Received(Published::Anonymous(message)) => forwarded_to_token(
            backend.replica().server_instance,
            subscriptions.subscribers(),
            message@,
        ),
        _ => Seq::empty(),
    }
}

/// Decides what to do about an event: what to send to which client, and what to
/// do next.
pub fn listener_step(
    backend: &RedisWebSocketBackend,
    subscriptions: &AnonymousWebSocketSubscriptions,
    event: &ListenerEvent,
) -> (step: (Vec<Delivery>, ListenerAction))
    ensures
        delivery_views(step.0@) == event_deliveries(*backend, *subscriptions, *event),
        step.1 == next_action(*event),
        event matches ListenerEvent::Received(Published::Notification(message)) ==> (
        message@.server_instance != backend.replica().server_instance ==> delivery_views(step.0@)
            == fan_out(
            backend.entries(),
            message@.target_users,
            payload_frame(message@.payload, message@.update_type, message@.acting_device_id),
        )),
{
    let nobody: Vec<Delivery> = Vec::new();
    assert(delivery_views(nobody@) =~= Seq::empty());
    match event {
        ListenerEvent::Started => (nobody, ListenerAction::Subscribe),
        ListenerEvent::Subscribed => (nobody, ListenerAction::Receive),
        ListenerEvent::SubscribeFailed => (
            nobody,
            ListenerAction::Pause { seconds: RETRY_PAUSE_SECONDS },
        ),
        ListenerEvent::Received(published) => {
            let deliveries = match published {
                Published::Notification(message) => backend.handle_notification_message(message),
                Published::Anonymous(message) => subscriptions.handle_message(
                    backend.server_instance_id(),
                    message,
                ),
                Published::Unreadable => nobody,
            };
            (deliveries, ListenerAction::Receive)
        },
        ListenerEvent::StreamFailed => (nobody, ListenerAction::Subscribe),
        ListenerEvent::PauseOver => (nobody, ListenerAction::Subscribe),
    }
}

/// What is published on either channel of a replica is recognized there as what
/// it is.
pub proof fn law_channels_are_told_apart(prefix: Seq<char>)
    ensures
        channel_kind(prefix, user_channel(prefix)) == Some(ChannelKind::Users),
        channel_kind(prefix, anonymous_channel(prefix)) == Some(ChannelKind::Anonymous),
{
    law_channels_differ(prefix, prefix);
}

/// Whatever happens, the listener goes on: after at most one pause it subscribes
/// or receives again.
pub proof fn law_listener_goes_on(event: ListenerEvent)
    ensures
        next_action(event) is Pause ==> next_action(ListenerEvent::PauseOver) is Subscribe,
        next_action(event) is Pause <==> event is SubscribeFailed,
        event is Received ==> next_action(event) is Receive,
{
}

/// What the listener does after each event: it subscribes at the start, after a pause
/// and when the stream broke off, receives when it has subscribed and after every
/// message whatever the message was, and pauses for five seconds when it could not
/// subscribe.
pub proof fn law_listener_reacts(event: ListenerEvent)
    ensures
        event is Started || event is PauseOver || event is StreamFailed <==> next_action(event)
            is Subscribe,
        event is Subscribed || event is Received <==> next_action(event) is Receive,
        event is SubscribeFailed ==> next_action(event) == (ListenerAction::Pause { seconds: 5 }),
{
}

/// A channel is listened on exactly where its name is the prefix with the ending of
/// either kind, and what comes on it is of that kind.
pub proof fn law_channel_kind_goes_by_its_name(prefix: Seq<char>, channel: Seq<char>)
    ensures
        channel_kind(prefix, channel) == Some(ChannelKind::Users) <==> channel == prefix
            + ":ws:user"@,
        channel_kind(prefix, channel) == Some(ChannelKind::Anonymous) <==> channel == prefix
            + ":ws:anonymous"@,
{
    law_keys_are_spelled_alike(Seq::empty(), 0, Seq::empty(), prefix);
    law_channels_differ(prefix, prefix);
}

/// A replica sends what it receives from another to exactly the clients it is for,
/// whatever it is about and whichever device it names: a notification to each
/// connection of each of its users, a frame for a token to its holder. What it
/// published itself, what does not read, and every other event is sent to nobody.
pub proof fn law_listener_forwards_every_foreign_message(
    backend: RedisWebSocketBackend,
    subscriptions: AnonymousWebSocketSubscriptions,
    event: ListenerEvent,
    sender: u64,
)
    ensures
        ({
            let name = backend.replica().server_instance;
            let deliveries = event_deliveries(backend, subscriptions, event);
            &&& event matches ListenerEvent::Received(Published::Notification(message)) ==> {
                &&& message@.server_instance == name ==> deliveries.len() == 0
                &&& message@.server_instance != name ==> deliveries == fan_out(
                    backend.entries(),
                    message@.target_users,
                    payload_frame(
                        message@.payload,
                        message@.update_type,
                        message@.acting_device_id,
                    ),
                )
                &&& message@.server_instance != name ==> (deliveries.contains(
                    (
                        sender,
                        payload_frame(
                            message@.payload,
                            message@.update_type,
                            message@.acting_device_id,
                        ),
                    ),
                ) <==> serves(backend.entries(), message@.target_users, sender))
            }
            &&& event matches ListenerEvent::Received(Published::Anonymous(message)) ==> {
                &&& message@.server_instance == name ==> deliveries.len() == 0
                &&& message@.server_instance != name && subscriptions.subscribers().contains_key(
                    message@.token,
                ) ==> deliveries == seq![
                    (subscriptions.subscribers()[message@.token], message@.data),
                ]
                &&& !subscriptions.subscribers().contains_key(message@.token) ==> deliveries.len()
                    == 0
            }
            &&& !(event is Received) || event == ListenerEvent::Received(Published::Unreadable)
                ==> deliveries.len() == 0
        }),
{
    if let ListenerEvent::Received(Published::Notification(message)) = event {
        let bytes = payload_frame(
            message@.payload,
            message@.update_type,
            message@.acting_device_id,
        );
        law_fan_out_reaches_exactly(
            backend.entries(),
            message@.target_users,
            bytes,
            sender,
            bytes,
        );
    }
}

/// What one replica publishes of a notification, another replica with the same prefix
/// and another name takes for a notification and sends to each own connection of each
/// of its users, in the frame that the publisher's own clients are sent.
pub proof fn law_published_notification_reaches_other_replicas(
    publisher: RedisSettings,
    publisher_connections: Connections,
    notification: NotificationView,
    channel: Seq<char>,
    message: RedisNotificationMessage,
    backend: RedisWebSocketBackend,
    subscriptions: AnonymousWebSocketSubscriptions,
)
    requires
        notification_plan(
            Some(publisher),
            publisher_connections,
            notification,
        ).commands.contains(
            (RedisCommandView::PublishNotification { channel, message: message@ }),
        ),
        backend.replica().channel_prefix == publisher.channel_prefix,
        backend.replica().server_instance != publisher.server_instance,
    ensures
        channel_kind(backend.replica().channel_prefix, channel) == Some(ChannelKind::Users),
        event_deliveries(
            backend,
            subscriptions,
            ListenerEvent::Received(Published::Notification(message)),
        ) == fan_out(
            backend.entries(),
            notification.target_users,
            notification_frame(Some(publisher), notification),
        ),
{
    let commands = notification_plan(
        Some(publisher),
        publisher_connections,
        notification,
    ).commands;
    let i = choose|i: int|
        0 <= i < commands.len() && commands[i] == (RedisCommandView::PublishNotification {
            channel,
            message: message@,
        });
    assert(commands.len() > 0);
    law_channels_are_told_apart(publisher.channel_prefix);
}

/// What one replica publishes of an answer, another replica with the same prefix and
/// another name takes for one and sends to the client that waits there under the token,
/// as it is.
pub proof fn law_published_answer_reaches_other_replicas(
    publisher: RedisSettings,
    publisher_subscribers: Map<Seq<char>, u64>,
    token: Seq<char>,
    data: Seq<u8>,
    channel: Seq<char>,
    message: AnonymousMessage,
    backend: RedisWebSocketBackend,
    subscriptions: AnonymousWebSocketSubscriptions,
)
    requires
        anonymous_plan(Some(publisher), publisher_subscribers, token, data).commands.contains(
            (RedisCommandView::PublishAnonymous { channel, frame: message@ }),
        ),
        backend.replica().channel_prefix == publisher.channel_prefix,
        backend.replica().server_instance != publisher.server_instance,
    ensures
        channel_kind(backend.replica().channel_prefix, channel) == Some(ChannelKind::Anonymous),
        subscriptions.subscribers().contains_key(token) ==> event_deliveries(
            backend,
            subscriptions,
            ListenerEvent::Received(Published::Anonymous(message)),
        ) == seq![(subscriptions.subscribers()[token], data)],
{
    let commands = anonymous_plan(
        Some(publisher),
        publisher_subscribers,
        token,
        data,
    ).commands;
    let i = choose|i: int|
        0 <= i < commands.len() && commands[i] == (RedisCommandView::PublishAnonymous {
            channel,
            frame: message@,
        });
    assert(commands.len() > 0);
    law_channels_are_told_apart(publisher.channel_prefix);
}

}
