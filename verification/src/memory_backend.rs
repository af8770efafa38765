//! Registries in the memory of the process, in the concurrent map of `dashmap`.

use crate::backends::{
    addressed_to_token, no_subscribers, AnonymousWebSocketBackend, WebSocketBackend,
};
use crate::connections::{
    address_all, addressed, connections_of, delivery_views, law_closed_connection_is_not_reached,
    no_connections, others, retain_others, without_connection, Connections, Delivery,
};
use dashmap::DashMap;
use vstd::prelude::*;

verus! {

#[verifier::external_type_specification]
#[verifier::external_body]
#[verifier::reject_recursive_types(K)]
#[verifier::reject_recursive_types(V)]
#[verifier::reject_recursive_types(S)]
pub struct ExDashMap<K, V, S>(DashMap<K, V, S>);

/// The entries of a `DashMap` of connections by user.
pub uninterp spec fn registry_entries(
    map: DashMap<String, Vec<(u128, u64)>>,
) -> Map<Seq<char>, Seq<(u128, u64)>>;

/// `DashMap::new`: a map without entries.
#[verifier::external_body]
fn new_registry() -> (fresh: DashMap<String, Vec<(u128, u64)>>)
    ensures
        registry_entries(fresh) == no_connections(),
{
    DashMap::new()
}

/// `DashMap::get` and a copy of what it finds.
#[verifier::external_body]
fn registry_get(map: &DashMap<String, Vec<(u128, u64)>>, key: &str) -> (found: Option<
    Vec<(u128, u64)>,
>)
    ensures
        found is Some == registry_entries(*map).contains_key(key@),
        found is Some ==> found->0@ == registry_entries(*map)[key@],
{
    map.get(key).map(|v| v.clone())
}

/// `DashMap::insert`: the key has the new value and every other key what it had.
#[verifier::external_body]
fn registry_insert(
    map: &mut DashMap<String, Vec<(u128, u64)>>,
    key: String,
    value: Vec<(u128, u64)>,
)
    ensures
        registry_entries(*final(map)) == registry_entries(*old(map)).insert(key@, value@),
{
    map.insert(key, value);
}

/// The connections of logged-in users, in memory.
pub struct MemoryWebSocketBackend {
    map: DashMap<String, Vec<(u128, u64)>>,
}

impl MemoryWebSocketBackend {
    /// The connections in the registry.
    pub closed spec fn entries(&self) -> Connections {
        registry_entries(self.map)
    }

    /// An empty registry.
    pub fn new() -> (backend: Self)
        ensures
            backend.entries() == no_connections(),
    {
        MemoryWebSocketBackend { map: new_registry() }
    }

    /// The connections of a user, if the registry knows the user.
    pub(crate) fn lookup(&self, user_id: &str) -> (found: Option<Vec<(u128, u64)>>)
        ensures
            found is Some == self.entries().contains_key(user_id@),
            found is Some ==> found->0@ == self.entries()[user_id@],
    {
        registry_get(&self.map, user_id)
    }
}

impl WebSocketBackend for MemoryWebSocketBackend {
    open spec fn connections(&self) -> Connections {
        self.entries()
    }

    fn add_connection(&mut self, user_id: &str, entry_uuid: u128, sender: u64) {
        let mut entries = match self.lookup(user_id) {
            Some(entries) => entries,
            None => Vec::new(),
        };
        proof {
            assert(entries@ =~= connections_of(self.entries(), user_id@));
        }
        entries.push((entry_uuid, sender));
        registry_insert(&mut self.map, user_id.to_owned(), entries);
    }

    fn remove_connection(&mut self, user_id: &str, entry_uuid: u128)
        ensures
            final(self).entries() == without_connection(
                old(self).entries(),
                user_id@,
                entry_uuid,
            ),
    {
        proof {
            assert forall|user: Seq<char>| #[trigger]
                connections_of(
                    without_connection(self.entries(), user_id@, entry_uuid),
                    user,
                ) == if user == user_id@ {
                others(connections_of(self.entries(), user), entry_uuid)
            } else {
                connections_of(self.entries(), user)
            } by {
                law_closed_connection_is_not_reached(
                    self.entries(),
                    user_id@,
                    entry_uuid,
                    user,
                );
            }
        }
        if let Some(entries) = self.lookup(user_id) {
            registry_insert(&mut self.map, user_id.to_owned(), retain_others(&entries, entry_uuid));
        }
    }

    fn send_update(&self, user_id: &str, data: &Vec<u8>) -> (deliveries: Vec<Delivery>) {
        let mut deliveries: Vec<Delivery> = Vec::new();
        if let Some(entries) = self.lookup(user_id) {
            address_all(&mut deliveries, &entries, data);
        }
        assert(delivery_views(deliveries@) =~= addressed(
            connections_of(self.connections(), user_id@),
            data@,
        ));
        deliveries
    }

    /// There is nothing to clean up: the connections stay where they are.
    fn shutdown(&mut self)
        ensures
            final(self).entries() == old(self).entries(),
    {
    }
}

/// The entries of a `DashMap` of senders by token.
pub uninterp spec fn subscriber_entries(map: DashMap<String, u64>) -> Map<Seq<char>, u64>;

/// `DashMap::new`: a map without entries.
#[verifier::external_body]
fn new_subscribers() -> (fresh: DashMap<String, u64>)
    ensures
        subscriber_entries(fresh) == no_subscribers(),
{
    DashMap::new()
}

/// `DashMap::get` and a copy of what it finds.
#[verifier::external_body]
fn subscriber_get(map: &DashMap<String, u64>, key: &str) -> (found: Option<u64>)
    ensures
        found is Some == subscriber_entries(*map).contains_key(key@),
        found is Some ==> found->0 == subscriber_entries(*map)[key@],
{
    map.get(key).map(|v| v.clone())
}

/// `DashMap::insert`: the key has the new value and every other key what it had.
#[verifier::external_body]
fn subscriber_insert(map: &mut DashMap<String, u64>, key: String, value: u64)
    ensures
        subscriber_entries(*final(map)) == subscriber_entries(*old(map)).insert(key@, value),
{
    map.insert(key, value);
}

/// `DashMap::remove`: the key is gone and every other key has what it had.
#[verifier::external_body]
fn subscriber_remove(map: &mut DashMap<String, u64>, key: &str)
    ensures
        subscriber_entries(*final(map)) == subscriber_entries(*old(map)).remove(key@),
{
    map.remove(key);
}

/// The connections of clients that are not logged in yet, in memory.
pub struct MemoryAnonymousWebSocketBackend {
    map: DashMap<String, u64>,
}

impl MemoryAnonymousWebSocketBackend {
    /// The sender for each token in the registry.
    pub closed spec fn entries(&self) -> Map<Seq<char>, u64> {
        subscriber_entries(self.map)
    }

    /// An empty registry.
    pub fn new() -> (backend: Self)
        ensures
            backend.entries() == no_subscribers(),
    {
        MemoryAnonymousWebSocketBackend { map: new_subscribers() }
    }
}

impl AnonymousWebSocketBackend for MemoryAnonymousWebSocketBackend {
    open spec fn subscribers(&self) -> Map<Seq<char>, u64> {
        self.entries()
    }

    fn add_connection(&mut self, token: &str, sender: u64) {
        subscriber_insert(&mut self.map, token.to_owned(), sender);
    }

    fn remove_connection(&mut self, token: &str) {
        subscriber_remove(&mut self.map, token);
    }

    fn send_update(&self, token: &str, data: &Vec<u8>) -> (deliveries: Vec<Delivery>) {
        let mut deliveries: Vec<Delivery> = Vec::new();
        if let Some(sender) = subscriber_get(&self.map, token) {
            let copy = data.clone();
            assert(copy@ =~= data@);
            deliveries.push(Delivery { sender, data: copy });
        }
        assert(delivery_views(deliveries@) =~= addressed_to_token(
            self.entries(),
            token@,
            data@,
        ));
        deliveries
    }

    /// There is nothing to clean up: the connections stay where they are.
    fn shutdown(&mut self)
        ensures
            final(self).entries() == old(self).entries(),
    {
    }
}

}
