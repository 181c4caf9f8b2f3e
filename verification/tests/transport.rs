use bytes::Bytes;
use replicon_transport::client::{RepliconClient, RepliconClientStatus};
use replicon_transport::server::RepliconServer;
use replicon_transport::ClientId;

#[test]
fn client_cleanup_on_disconnect() {
    let mut client = RepliconClient::new();
    client.setup_server_channels(1);
    client.set_status(RepliconClientStatus::Connected { client_id: None });

    client.send(0, Bytes::new());
    client.insert_received(0, Bytes::new());

    client.set_status(RepliconClientStatus::Disconnected);

    assert_eq!(client.drain_sent().len(), 0);
    assert!(client.receive(0).is_none());
}

#[test]
fn server_cleanup_on_stop() {
    let mut server = RepliconServer::new();
    server.setup_channels(1);
    server.set_running(true);

    let dummy_client_id = ClientId::new(1);
    server.add_peer(dummy_client_id);
    server.send(dummy_client_id, 0, Bytes::new());
    server.insert_received(dummy_client_id, 0, Bytes::new());

    server.set_running(false);

    assert_eq!(server.drain_sent().len(), 0);
    assert!(server.receive(dummy_client_id, 0).is_none());
}

#[test]
fn client_disconnected() {
    let mut client = RepliconClient::new();
    client.setup_server_channels(1);

    client.send(0, Bytes::new());
    client.insert_received(0, Bytes::new());

    assert_eq!(client.drain_sent().len(), 0);
    assert!(client.receive(0).is_none());
}

#[test]
fn server_inactive() {
    let mut server = RepliconServer::new();
    server.setup_channels(1);

    let dummy_client_id = ClientId::new(1);
    server.send(dummy_client_id, 0, Bytes::new());
    server.insert_received(dummy_client_id, 0, Bytes::new());

    assert_eq!(server.drain_sent().len(), 0);
    assert!(server.receive(dummy_client_id, 0).is_none());
}

#[test]
fn lifo_pop_order() {
    let mut client = RepliconClient::new();
    client.setup_server_channels(1);
    client.set_status(RepliconClientStatus::Connected { client_id: None });

    let p1 = Bytes::from(vec![1u8]);
    let p2 = Bytes::from(vec![2u8]);
    client.insert_received(0, p1.clone());
    client.insert_received(0, p2.clone());

    assert_eq!(client.receive(0), Some(p2));
    assert_eq!(client.receive(0), Some(p1));
    assert!(client.receive(0).is_none());
}

#[test]
fn drain_empties_exactly_once() {
    let mut client = RepliconClient::new();
    client.setup_server_channels(2);
    client.set_status(RepliconClientStatus::Connected { client_id: None });

    client.send(0, Bytes::from(vec![1u8]));
    client.send(1, Bytes::from(vec![2u8]));

    let drained = client.drain_sent();
    assert_eq!(drained.len(), 2);
    assert_eq!(drained[0], (0u8, Bytes::from(vec![1u8])));
    assert_eq!(drained[1], (1u8, Bytes::from(vec![2u8])));

    assert!(client.drain_sent().is_empty());
}

#[test]
fn server_drain_empties_exactly_once() {
    let mut server = RepliconServer::new();
    server.setup_channels(1);
    server.set_running(true);

    let a = ClientId::new(1);
    let b = ClientId::new(2);
    server.add_peer(a);
    server.add_peer(b);
    server.send(b, 0, Bytes::from(vec![1u8]));
    server.send(a, 0, Bytes::from(vec![2u8]));

    let drained = server.drain_sent();
    assert_eq!(drained.len(), 2);
    assert_eq!(drained[0], (b, 0u8, Bytes::from(vec![1u8])));
    assert_eq!(drained[1], (a, 0u8, Bytes::from(vec![2u8])));

    assert!(server.drain_sent().is_empty());
}

#[test]
fn channel_isolation() {
    let mut client = RepliconClient::new();
    client.setup_server_channels(2);
    client.set_status(RepliconClientStatus::Connected { client_id: None });

    client.insert_received(0, Bytes::from(vec![7u8]));

    assert!(client.receive(1).is_none());
    assert_eq!(client.receive(0), Some(Bytes::from(vec![7u8])));
}

#[test]
fn server_unknown_peer() {
    let mut server = RepliconServer::new();
    server.setup_channels(1);
    server.set_running(true);

    server.send(ClientId::new(7), 0, Bytes::from(vec![1u8]));

    assert!(server.drain_sent().is_empty());
}

#[test]
fn send_within_configured_channels() {
    let mut client = RepliconClient::new();
    client.setup_server_channels(3);
    client.set_status(RepliconClientStatus::Connected { client_id: None });

    client.send(2, Bytes::from(vec![9u8]));

    let drained = client.drain_sent();
    assert_eq!(drained.len(), 1);
    assert_eq!(drained[0], (2u8, Bytes::from(vec![9u8])));
}

#[test]
fn discard_on_any_non_connected_status() {
    let mut client = RepliconClient::new();
    client.setup_server_channels(1);
    client.set_status(RepliconClientStatus::Connected { client_id: None });

    client.send(0, Bytes::new());
    client.insert_received(0, Bytes::new());

    client.set_status(RepliconClientStatus::Connecting);

    assert!(client.drain_sent().is_empty());
    client.set_status(RepliconClientStatus::Connected { client_id: None });
    assert!(client.receive(0).is_none());
}

#[test]
fn status_transitions() {
    let mut client = RepliconClient::new();
    assert!(client.is_disconnected());
    assert!(!client.is_connecting());
    assert!(!client.is_connected());
    assert_eq!(client.status(), RepliconClientStatus::Disconnected);
    assert!(client.id().is_none());

    client.set_status(RepliconClientStatus::Connecting);
    assert!(client.is_connecting());
    assert!(client.id().is_none());

    client.set_status(RepliconClientStatus::Connected { client_id: Some(ClientId::new(42)) });
    assert!(client.is_connected());
    assert_eq!(client.id(), Some(ClientId::new(42)));
    assert_eq!(client.id().unwrap().get(), 42);
}

#[test]
fn peer_registration() {
    let mut server = RepliconServer::new();
    server.setup_channels(2);
    server.set_running(true);
    assert!(server.is_running());

    let a = ClientId::new(1);
    let b = ClientId::new(2);
    server.add_peer(a);
    server.add_peer(b);

    server.insert_received(a, 0, Bytes::from(vec![1u8]));
    server.insert_received(b, 0, Bytes::from(vec![2u8]));

    assert_eq!(server.receive(a, 0), Some(Bytes::from(vec![1u8])));
    assert!(server.receive(a, 1).is_none());

    server.remove_peer(a);
    assert!(server.receive(a, 0).is_none());
    assert_eq!(server.receive(b, 0), Some(Bytes::from(vec![2u8])));
}

#[test]
fn channel_setup_reconfigures() {
    let mut client = RepliconClient::new();
    client.setup_server_channels(2);
    client.set_status(RepliconClientStatus::Connected { client_id: None });

    client.insert_received(1, Bytes::from(vec![5u8]));
    client.setup_server_channels(3);

    assert!(client.receive(1).is_none());
    client.insert_received(2, Bytes::from(vec![6u8]));
    assert_eq!(client.receive(2), Some(Bytes::from(vec![6u8])));
}

#[test]
fn default_values() {
    let client = RepliconClient::default();
    assert!(client.is_disconnected());
    assert_eq!(RepliconClientStatus::default(), RepliconClientStatus::Disconnected);

    let server = RepliconServer::default();
    assert!(!server.is_running());
}
