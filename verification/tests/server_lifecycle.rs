use widget_bridge::codec::decode;
use widget_bridge::router::{route, AppEvent};
use widget_bridge::server::{client_id_for, WebSocketServer, WsError};

fn json(text: &str) -> serde_json::Value {
    serde_json::from_str(text).unwrap()
}

#[test]
fn start_stop_start_succeeds_on_the_same_port() {
    let mut s = WebSocketServer::new();
    assert!(s.start(8765, "127.0.0.1".to_string(), true).is_ok());
    assert!(s.is_running());
    assert!(s.stop().is_ok());
    assert!(!s.is_running());
    assert!(s.start(8765, "127.0.0.1".to_string(), true).is_ok());
    assert!(s.is_running());
}

#[test]
fn double_start_is_already_running_and_changes_nothing() {
    let mut s = WebSocketServer::new();
    match s.start(8765, "127.0.0.1".to_string(), true).unwrap() {
        AppEvent::ServerStarted { bind_address, port } => {
            assert_eq!(bind_address, "127.0.0.1");
            assert_eq!(port, 8765);
        }
        other => panic!("expected a server-started event, got {:?}", other),
    }
    let second = s.start(8765, "127.0.0.1".to_string(), true);
    assert_eq!(second.unwrap_err(), WsError::AlreadyRunning);
    assert!(s.is_running());
}

#[test]
fn failed_bind_leaves_the_server_stopped() {
    let mut s = WebSocketServer::new();
    assert_eq!(
        s.start(80, "127.0.0.1".to_string(), false).unwrap_err(),
        WsError::BindError
    );
    assert!(!s.is_running());
    assert!(s.start(8080, "127.0.0.1".to_string(), true).is_ok());
}

#[test]
fn stop_while_stopped_is_not_running() {
    let mut s = WebSocketServer::new();
    assert_eq!(s.stop().unwrap_err(), WsError::NotRunning);
}

#[test]
fn stop_drains_every_connection() {
    let mut s = WebSocketServer::new();
    s.start(9000, "0.0.0.0".to_string(), true).unwrap();
    s.client_connected("client_a".to_string(), "a".to_string(), 1);
    s.client_connected("client_b".to_string(), "b".to_string(), 2);
    let drained = s.stop().unwrap();
    let mut ids: Vec<String> = drained.iter().map(|e| e.id.clone()).collect();
    ids.sort();
    assert_eq!(ids, vec!["client_a".to_string(), "client_b".to_string()]);
    assert!(s.get_connected_clients().is_empty());
}

#[test]
fn send_to_unknown_client_is_not_found() {
    let s = WebSocketServer::new();
    let payload = json("{\"type\":\"request-widgets\"}");
    assert_eq!(
        s.send_to_client("client_nowhere", &payload).unwrap_err(),
        WsError::ClientNotFound
    );
}

#[test]
fn send_after_disconnect_is_not_found_again() {
    let mut s = WebSocketServer::new();
    let payload = json("{\"value\":1}");
    s.client_connected("client_x".to_string(), "x".to_string(), 5);
    let plan = s.send_to_client("client_x", &payload).unwrap();
    assert_eq!(plan.handle, 5);
    assert_eq!(plan.text, serde_json::to_string(&payload).unwrap());
    s.client_disconnected("client_x");
    assert_eq!(
        s.send_to_client("client_x", &payload).unwrap_err(),
        WsError::ClientNotFound
    );
}

#[test]
fn send_outcome_maps_to_the_callers_result() {
    assert!(WebSocketServer::complete_send(true).is_ok());
    assert_eq!(
        WebSocketServer::complete_send(false).unwrap_err(),
        WsError::SendError
    );
}

#[test]
fn broadcast_with_one_broken_socket_still_reaches_the_others() {
    let mut s = WebSocketServer::new();
    s.client_connected("client_a".to_string(), "a".to_string(), 1);
    s.client_connected("client_b".to_string(), "b".to_string(), 2);
    s.client_connected("client_c".to_string(), "c".to_string(), 3);
    let payload = json("{\"note\":\"hello\"}");
    let plan = s.broadcast(&payload).unwrap();
    assert_eq!(plan.targets.len(), 3);
    assert_eq!(plan.text, serde_json::to_string(&payload).unwrap());

    // Handle 2's socket is broken: its write fails, the other two succeed.
    let mut delivered: Vec<String> = Vec::new();
    let mut failures: usize = 0;
    for t in &plan.targets {
        if t.handle == 2 {
            failures += 1;
        } else {
            delivered.push(t.id.clone());
        }
    }
    delivered.sort();
    assert_eq!(delivered, vec!["client_a".to_string(), "client_c".to_string()]);
    assert_eq!(
        WebSocketServer::broadcast_report(failures).unwrap_err(),
        WsError::PartialFailure
    );
    assert!(WebSocketServer::broadcast_report(0).is_ok());
}

#[test]
fn registration_requests_carry_the_fixed_frame() {
    let mut s = WebSocketServer::new();
    s.client_connected("client_a".to_string(), "a".to_string(), 1);
    s.client_connected("client_b".to_string(), "b".to_string(), 2);
    let expected =
        "{\"type\":\"request-widgets\",\"message\":\"Please send your widget definitions\"}";
    let plan = s.request_widget_registration("client_b").unwrap();
    assert_eq!(plan.handle, 2);
    assert_eq!(plan.text, expected);
    assert_eq!(
        s.request_widget_registration("client_z").unwrap_err(),
        WsError::ClientNotFound
    );
    let all = s.request_all_widgets();
    assert_eq!(all.targets.len(), 2);
    assert_eq!(all.text, expected);
}

#[test]
fn last_write_wins_for_a_reused_identifier() {
    let mut s = WebSocketServer::new();
    s.client_connected("client_a".to_string(), "a".to_string(), 1);
    s.client_connected("client_a".to_string(), "a".to_string(), 9);
    assert_eq!(s.get_connected_clients(), vec!["client_a".to_string()]);
    let payload = json("1");
    assert_eq!(s.send_to_client("client_a", &payload).unwrap().handle, 9);
}

#[test]
fn end_to_end_register_and_disconnect() {
    let mut s = WebSocketServer::new();
    s.start(8123, "127.0.0.1".to_string(), true).unwrap();

    // A client connects; the registry holds exactly one entry.
    let id = client_id_for("127.0.0.1:51515");
    assert_eq!(id, "client_127.0.0.1:51515");
    let ev = s.client_connected(id.clone(), "127.0.0.1:51515".to_string(), 42);
    assert_eq!(ev.name(), "client-connected");
    match ev {
        AppEvent::ClientConnected { client_id, address } => {
            assert_eq!(client_id, id);
            assert_eq!(address, "127.0.0.1:51515");
        }
        other => panic!("expected a client-connected event, got {:?}", other),
    }
    assert_eq!(s.get_connected_clients(), vec![id.clone()]);

    // It registers its widgets; the host sees the event with the same
    // producer identifier and the derived client identifier.
    let m = decode("{\"type\":\"register-widgets\",\"qaId\":\"42\"}").unwrap();
    let ev = route(&id, m).unwrap();
    assert_eq!(ev.name(), "register-widgets");
    match ev {
        AppEvent::RegisterWidgets { client_id, qa_id, .. } => {
            assert_eq!(client_id, id);
            assert_eq!(qa_id.unwrap(), json("\"42\""));
        }
        other => panic!("expected a register-widgets event, got {:?}", other),
    }

    // It disconnects; the registry is empty and the host hears about it.
    let ev = s.client_disconnected(&id);
    assert_eq!(ev.name(), "client-disconnected");
    match ev {
        AppEvent::ClientDisconnected { client_id } => assert_eq!(client_id, id),
        other => panic!("expected a client-disconnected event, got {:?}", other),
    }
    assert!(s.get_connected_clients().is_empty());
}
