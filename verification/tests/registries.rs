use vaultsync::backends::{AnonymousWebSocketBackend, WebSocketBackend};
use vaultsync::connections::{retain_others, Delivery};
use vaultsync::memory_backend::{MemoryAnonymousWebSocketBackend, MemoryWebSocketBackend};

fn to(sender: u64, data: &[u8]) -> Delivery {
    Delivery { sender, data: data.to_vec() }
}

#[test]
fn every_connection_of_a_user_is_reached() {
    let mut backend = MemoryWebSocketBackend::new();
    assert_eq!(backend.send_update("alice", &vec![1]), vec![]);
    backend.add_connection("alice", 1, 10);
    backend.add_connection("alice", 2, 20);
    backend.add_connection("bob", 3, 30);
    assert_eq!(backend.send_update("alice", &vec![1, 2]), vec![to(10, &[1, 2]), to(20, &[1, 2])]);
    assert_eq!(backend.send_update("bob", &vec![9]), vec![to(30, &[9])]);
    assert_eq!(backend.send_update("carol", &vec![9]), vec![]);
}

#[test]
fn closed_connection_is_not_reached() {
    let mut backend = MemoryWebSocketBackend::new();
    backend.add_connection("alice", 1, 10);
    backend.add_connection("alice", 2, 20);
    backend.add_connection("alice", 1, 11);
    backend.remove_connection("alice", 1);
    assert_eq!(backend.send_update("alice", &vec![5]), vec![to(20, &[5])]);
    backend.remove_connection("alice", 7);
    backend.remove_connection("nobody", 2);
    assert_eq!(backend.send_update("alice", &vec![5]), vec![to(20, &[5])]);
    backend.remove_connection("alice", 2);
    assert_eq!(backend.send_update("alice", &vec![5]), vec![]);
}

#[test]
fn shutdown_keeps_the_connections() {
    let mut backend = MemoryWebSocketBackend::new();
    backend.add_connection("alice", 1, 10);
    backend.shutdown();
    assert_eq!(backend.send_update("alice", &vec![]), vec![to(10, &[])]);
    let mut anonymous = MemoryAnonymousWebSocketBackend::new();
    anonymous.add_connection("t", 4);
    anonymous.shutdown();
    assert_eq!(anonymous.send_update("t", &vec![]), vec![to(4, &[])]);
}

#[test]
fn token_leads_to_its_last_subscriber() {
    let mut backend = MemoryAnonymousWebSocketBackend::new();
    assert_eq!(backend.send_update("t", &vec![1]), vec![]);
    backend.add_connection("t", 4);
    backend.add_connection("u", 5);
    backend.add_connection("t", 6);
    assert_eq!(backend.send_update("t", &vec![1]), vec![to(6, &[1])]);
    backend.remove_connection("t");
    assert_eq!(backend.send_update("t", &vec![1]), vec![]);
    assert_eq!(backend.send_update("u", &vec![1]), vec![to(5, &[1])]);
}

#[test]
fn retained_connections_keep_their_order() {
    let entries = vec![(1, 10), (2, 20), (1, 30), (3, 40)];
    assert_eq!(retain_others(&entries, 1), vec![(2, 20), (3, 40)]);
    assert_eq!(retain_others(&entries, 9), entries);
    assert_eq!(retain_others(&vec![(5, 1)], 5), vec![]);
}
