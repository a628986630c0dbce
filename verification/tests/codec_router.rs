use widget_bridge::codec::{decode, DecodeError, InboundMessage};
use widget_bridge::router::{route, AppEvent};

fn json(text: &str) -> serde_json::Value {
    serde_json::from_str(text).unwrap()
}

#[test]
fn heartbeat_decodes_and_emits_no_event() {
    let m = decode("{\"type\":\"heartbeat\"}").unwrap();
    assert!(matches!(m, InboundMessage::Heartbeat));
    let ev = route("client_1", m);
    assert!(ev.is_none());
}

#[test]
fn widget_update_emits_one_event_with_fields_unchanged() {
    let text = "{\"type\":\"widget-update\",\"widgetId\":\"w1\",\"changes\":{\"value\":5}}";
    let m = decode(text).unwrap();
    match route("client_9", m) {
        Some(AppEvent::WidgetUpdate { client_id, widget_id, changes }) => {
            assert_eq!(client_id, "client_9");
            assert_eq!(widget_id.unwrap(), json("\"w1\""));
            assert_eq!(changes.unwrap(), json("{\"value\":5}"));
        }
        other => panic!("expected a widget-update event, got {:?}", other),
    }
}

#[test]
fn register_widgets_carries_every_member() {
    let text = "{\"type\":\"register-widgets\",\"qaId\":7,\"qaName\":\"kitchen\",\"widgets\":[1,2]}";
    let m = decode(text).unwrap();
    match route("client_2", m) {
        Some(AppEvent::RegisterWidgets { client_id, qa_id, qa_name, widgets }) => {
            assert_eq!(client_id, "client_2");
            assert_eq!(qa_id.unwrap(), json("7"));
            assert_eq!(qa_name.unwrap(), json("\"kitchen\""));
            assert_eq!(widgets.unwrap(), json("[1,2]"));
        }
        other => panic!("expected a register-widgets event, got {:?}", other),
    }
}

#[test]
fn register_widgets_missing_members_stay_absent() {
    let m = decode("{\"type\":\"register-widgets\",\"qaId\":\"42\"}").unwrap();
    match route("client_3", m) {
        Some(AppEvent::RegisterWidgets { client_id, qa_id, qa_name, widgets }) => {
            assert_eq!(client_id, "client_3");
            assert_eq!(qa_id.unwrap(), json("\"42\""));
            assert!(qa_name.is_none());
            assert!(widgets.is_none());
        }
        other => panic!("expected a register-widgets event, got {:?}", other),
    }
}

#[test]
fn unregister_widgets_emits_its_event() {
    let m = decode("{\"type\":\"unregister-widgets\",\"qaId\":3}").unwrap();
    match route("client_4", m) {
        Some(AppEvent::UnregisterWidgets { client_id, qa_id }) => {
            assert_eq!(client_id, "client_4");
            assert_eq!(qa_id.unwrap(), json("3"));
        }
        other => panic!("expected an unregister-widgets event, got {:?}", other),
    }
}

#[test]
fn malformed_text_is_rejected() {
    assert_eq!(decode("not json").unwrap_err(), DecodeError::MalformedPayload);
}

#[test]
fn non_object_top_level_is_rejected() {
    assert_eq!(decode("5").unwrap_err(), DecodeError::MalformedPayload);
    assert_eq!(decode("\"heartbeat\"").unwrap_err(), DecodeError::MalformedPayload);
    assert_eq!(decode("[{\"type\":\"heartbeat\"}]").unwrap_err(), DecodeError::MalformedPayload);
}

#[test]
fn missing_or_non_string_discriminator_is_rejected() {
    assert_eq!(decode("{}").unwrap_err(), DecodeError::MissingDiscriminator);
    assert_eq!(decode("{\"widgetId\":\"w1\"}").unwrap_err(), DecodeError::MissingDiscriminator);
    assert_eq!(decode("{\"type\":5}").unwrap_err(), DecodeError::MissingDiscriminator);
}

#[test]
fn unknown_discriminator_is_not_an_error_and_routes_nowhere() {
    let m = decode("{\"type\":\"mystery\"}").unwrap();
    match &m {
        InboundMessage::Unknown { raw } => assert_eq!(raw, "mystery"),
        other => panic!("expected an unknown message, got {:?}", other),
    }
    assert!(route("client_5", m).is_none());
}

#[test]
fn event_names_match_the_protocol() {
    let m = decode("{\"type\":\"widget-update\"}").unwrap();
    let ev = route("c", m).unwrap();
    assert_eq!(ev.name(), "widget-update");
    let m = decode("{\"type\":\"register-widgets\"}").unwrap();
    assert_eq!(route("c", m).unwrap().name(), "register-widgets");
    let m = decode("{\"type\":\"unregister-widgets\"}").unwrap();
    assert_eq!(route("c", m).unwrap().name(), "unregister-widgets");
    assert_eq!(AppEvent::ServerStopped.name(), "server-stopped");
}
