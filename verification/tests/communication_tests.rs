use rusty_ai::communication::{
    MessagePayload, MessageRouter, MessageSerializer, MessageType, PluginCommunication,
    PluginMessage, PluginResponse,
};

fn sample_message() -> PluginMessage {
    PluginMessage {
        id: 7,
        sender: "test_sender".to_string(),
        recipient: Some("test_recipient".to_string()),
        message_type: MessageType::Request,
        payload: MessagePayload::Text("test message".to_string()),
        timestamp: 123,
        reply_to: None,
    }
}

#[test]
fn test_plugin_communication_creation() {
    let mut comm = PluginCommunication::new();

    comm.register_plugin("test_plugin");
    let channel = comm.get_channel("test_plugin").unwrap();
    assert_eq!(channel.plugin_id(), "test_plugin");
    assert!(channel.is_active());
}

#[test]
fn test_message_routing() {
    let mut router = MessageRouter::new();

    router.add_route("plugin1", "plugin2");
    let routes = router.get_routes("plugin1");

    assert!(routes.contains(&"plugin2".to_string()));
}

#[test]
fn test_broadcast_subscription() {
    let mut router = MessageRouter::new();

    router.add_broadcast_subscriber("plugin1");
    let subscribers = router.get_broadcast_subscribers();

    assert!(subscribers.contains(&"plugin1".to_string()));
}

#[test]
fn test_message_serialization() {
    let serializer = MessageSerializer::new();
    let message = sample_message();

    let json = serializer.to_json(&message);
    let deserialized = serializer.from_json(&json).unwrap();

    assert_eq!(message.id, deserialized.id);
    assert_eq!(message.sender, deserialized.sender);
}

#[test]
fn test_plugin_unregistration() {
    let mut comm = PluginCommunication::new();

    comm.register_plugin("test_plugin");
    comm.unregister_plugin("test_plugin");

    assert!(comm.get_channel("test_plugin").is_none());
}

#[test]
fn test_point_to_point_delivery() {
    let mut comm = PluginCommunication::new();
    comm.register_plugin("a");
    comm.register_plugin("b");

    let id = comm.send_message(
        "a",
        "b",
        MessageType::Event,
        MessagePayload::Text("hi".to_string()),
        5,
    );
    let b = comm.get_channel("b").unwrap();
    assert_eq!(b.inbox.len(), 1);
    assert_eq!(b.inbox[0].id, id);
    assert_eq!(b.inbox[0].sender, "a");
    assert_eq!(b.inbox[0].timestamp, 5);

    // Delivery to an unknown recipient is dropped, not an error.
    let _ = comm.send_message(
        "a",
        "nobody",
        MessageType::Event,
        MessagePayload::Text("hi".to_string()),
        6,
    );
    assert_eq!(comm.get_channel("a").unwrap().inbox.len(), 0);
}

#[test]
fn test_broadcast_fan_out_excludes_sender() {
    let mut comm = PluginCommunication::new();
    comm.register_plugin("a");
    comm.register_plugin("b");
    comm.register_plugin("c");
    comm.message_router.add_broadcast_subscriber("a");
    comm.message_router.add_broadcast_subscriber("b");
    comm.message_router.add_broadcast_subscriber("c");

    let _ = comm.broadcast_message(
        "a",
        MessageType::Broadcast,
        MessagePayload::Text("all hands".to_string()),
        9,
    );
    assert_eq!(comm.get_channel("a").unwrap().inbox.len(), 0);
    assert_eq!(comm.get_channel("b").unwrap().inbox.len(), 1);
    assert_eq!(comm.get_channel("c").unwrap().inbox.len(), 1);
    assert!(comm.get_channel("b").unwrap().inbox[0].recipient.is_none());
}

#[test]
fn test_request_response_correlation() {
    // A response resolves only the waiter whose correlation id matches,
    // even with unrelated traffic on the bus; each id resolves once.
    let mut comm = PluginCommunication::new();
    comm.register_plugin("a");
    comm.register_plugin("b");

    let id1 = comm.send_request("a", "b", "fn", "{}".to_string(), 1000, 0);
    let id2 = comm.send_request("a", "b", "other_fn", "{}".to_string(), 1000, 1);
    let _noise = comm.send_message(
        "b",
        "a",
        MessageType::Event,
        MessagePayload::Text("noise".to_string()),
        2,
    );
    assert_ne!(id1, id2);

    // The request message carries its correlation id in reply_to.
    let b = comm.get_channel("b").unwrap();
    assert_eq!(b.inbox[0].reply_to, Some(id1));
    assert_eq!(b.inbox[1].reply_to, Some(id2));

    // A response to an unknown id resolves nothing.
    let stray = PluginResponse {
        request_id: 999_999,
        success: true,
        result: None,
        error: None,
        execution_time: 1,
    };
    assert!(comm.resolve_response(stray).is_none());

    // The matching response resolves its own waiter, exactly once.
    let response = PluginResponse {
        request_id: id2,
        success: true,
        result: Some("ok".to_string()),
        error: None,
        execution_time: 3,
    };
    let resolved = comm.resolve_response(response).unwrap();
    assert_eq!(resolved.request_id, id2);
    let again = PluginResponse {
        request_id: id2,
        success: true,
        result: None,
        error: None,
        execution_time: 4,
    };
    assert!(comm.resolve_response(again).is_none());

    // The other request is still outstanding until it times out.
    assert!(comm.request_timeout(id1));
    assert!(!comm.request_timeout(id1));
}

#[test]
fn test_serialization_round_trip_all_payloads() {
    let serializer = MessageSerializer::new();
    let payloads = vec![
        MessagePayload::Text("with \"quotes\" and \\ and \n control".to_string()),
        MessagePayload::Binary(vec![0, 1, 127, 255]),
        MessagePayload::Json("{\"k\":1}".to_string()),
        MessagePayload::Function {
            name: "fn".to_string(),
            args: "{\"x\":2}".to_string(),
        },
        MessagePayload::Event {
            event_type: "tick".to_string(),
            data: "now".to_string(),
        },
        MessagePayload::Error {
            code: 500,
            message: "boom".to_string(),
            details: Some("ctx".to_string()),
        },
        MessagePayload::Error {
            code: 404,
            message: "gone".to_string(),
            details: None,
        },
    ];
    let mut id: u64 = 0;
    for payload in payloads {
        let message = PluginMessage {
            id,
            sender: "s".to_string(),
            recipient: if id % 2 == 0 {
                Some("r".to_string())
            } else {
                None
            },
            message_type: MessageType::Response,
            payload,
            timestamp: id * 10,
            reply_to: if id % 2 == 0 { Some(id) } else { None },
        };
        let json = serializer.to_json(&message);
        let back = serializer.from_json(&json).unwrap();
        assert_eq!(serializer.to_json(&back), json);
        assert_eq!(back.id, message.id);
        assert_eq!(back.sender, message.sender);
        assert_eq!(back.recipient, message.recipient);
        assert_eq!(back.timestamp, message.timestamp);
        assert_eq!(back.reply_to, message.reply_to);
        id += 1;
    }
}

#[test]
fn test_serialization_exact_text() {
    let serializer = MessageSerializer::new();
    let message = PluginMessage {
        id: 1,
        sender: "a".to_string(),
        recipient: None,
        message_type: MessageType::System,
        payload: MessagePayload::Binary(vec![9, 10]),
        timestamp: 2,
        reply_to: None,
    };
    let json = serializer.to_json(&message);
    assert_eq!(
        json,
        "{\"id\":1,\"sender\":\"a\",\"recipient\":null,\"message_type\":\"System\",\"payload\":{\"Binary\":[9,10]},\"timestamp\":2,\"reply_to\":null}"
    );
}

#[test]
fn test_deserialization_rejects_noise() {
    let serializer = MessageSerializer::new();
    assert!(serializer.from_json("not json at all").is_err());
    assert!(serializer.from_json("{\"id\":01,\"sender\":\"a\"}").is_err());
}

#[test]
fn test_binary_round_trip() {
    let serializer = MessageSerializer::new();
    let message = sample_message();
    let bytes = serializer.to_binary(&message);
    let back = serializer.from_binary(&bytes).unwrap();
    assert_eq!(back.id, message.id);
    assert_eq!(back.sender, message.sender);
}

#[test]
fn test_route_removal() {
    let mut router = MessageRouter::new();
    router.add_route("p1", "p2");
    router.add_route("p1", "p3");
    router.remove_route("p1", "p2");
    let routes = router.get_routes("p1");
    assert!(!routes.contains(&"p2".to_string()));
    assert!(routes.contains(&"p3".to_string()));

    router.remove_routes("p1");
    assert_eq!(router.get_routes("p1").len(), 0);
}
