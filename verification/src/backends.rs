//! The interface of a connection registry: the part of a backend that knows who
//! is connected and addresses bytes to them.

use crate::connections::{
    addressed, connections_of, delivery_views, others, with_connection, Connections, Delivery,
};
use vstd::prelude::*;

verus! {

/// A registry of the connections of logged-in users.
pub trait WebSocketBackend {
    /// The connections in the registry.
    spec fn connections(&self) -> Connections;

    /// Adds a connection of a user.
    fn add_connection(&mut self, user_id: &str, entry_uuid: u128, sender: u64)
        ensures
            final(self).connections() == with_connection(
                old(self).connections(),
                user_id@,
                entry_uuid,
                sender,
            ),
    ;

    /// Removes a connection of a user.
    fn remove_connection(&mut self, user_id: &str, entry_uuid: u128)
        ensures
            forall|user: Seq<char>|
                #[trigger] connections_of(final(self).connections(), user) == if user == user_id@ {
                    others(connections_of(old(self).connections(), user), entry_uuid)
                } else {
                    connections_of(old(self).connections(), user)
                },
    ;

    /// Addresses an update to every connection of a user.
    fn send_update(&self, user_id: &str, data: &Vec<u8>) -> (deliveries: Vec<Delivery>)
        ensures
            delivery_views(deliveries@) == addressed(
                connections_of(self.connections(), user_id@),
                data@,
            ),
    ;

    /// Ends the work of the registry, which may close connections and opens none.
    fn shutdown(&mut self)
        ensures
            forall|user: Seq<char>, entry: (u128, u64)|
                connections_of(final(self).connections(), user).contains(entry)
                    ==> #[trigger] connections_of(old(self).connections(), user).contains(entry),
    ;
}

/// No token is taken.
pub open spec fn no_subscribers() -> Map<Seq<char>, u64> {
    Map::empty()
}

/// What is sent to the holder of a token, if there is one.
pub open spec fn addressed_to_token(
    subscribers: Map<Seq<char>, u64>,
    token: Seq<char>,
    data: Seq<u8>,
) -> Seq<(u64, Seq<u8>)> {
    if subscribers.contains_key(token) {
        seq![(subscribers[token], data)]
    } else {
        Seq::empty()
    }
}

/// A registry of the connections of clients that are not logged in yet, each
/// known by the token of its request.
pub trait AnonymousWebSocketBackend {
    /// The sender for each token in the registry.
    spec fn subscribers(&self) -> Map<Seq<char>, u64>;

    /// Adds the connection for a token, in place of the one it had.
    fn add_connection(&mut self, token: &str, sender: u64)
        ensures
            final(self).subscribers() == old(self).subscribers().insert(token@, sender),
    ;

    /// Removes the connection for a token.
    fn remove_connection(&mut self, token: &str)
        ensures
            final(self).subscribers() == old(self).subscribers().remove(token@),
    ;

    /// Addresses an update to the connection for a token.
    fn send_update(&self, token: &str, data: &Vec<u8>) -> (deliveries: Vec<Delivery>)
        ensures
            delivery_views(deliveries@) == addressed_to_token(self.subscribers(), token@, data@),
    ;

    /// Ends the work of the registry, which may close connections and opens none.
    fn shutdown(&mut self)
        ensures
            final(self).subscribers().submap_of(old(self).subscribers()),
    ;
}

/// The holder of a token is sent the bytes once, and where nobody holds it nothing is
/// sent; nobody holds a token at first.
pub proof fn law_token_leads_to_its_holder(
    subscribers: Map<Seq<char>, u64>,
    token: Seq<char>,
    data: Seq<u8>,
)
    ensures
        subscribers.contains_key(token) ==> addressed_to_token(subscribers, token, data).len() == 1
            && addressed_to_token(subscribers, token, data)[0] == (subscribers[token], data),
        !subscribers.contains_key(token) ==> addressed_to_token(
            subscribers,
            token,
            data,
        ).len() == 0,
        !no_subscribers().contains_key(token),
{
}

}
