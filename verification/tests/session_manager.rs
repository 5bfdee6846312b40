use sast_readium::capabilities::{extract_capabilities, extract_protocol_version, MCPHandshake};
use sast_readium::config::{stdio_connect_plan, MCPServerConfig};
use sast_readium::dispatch::{
    coerce_tool_arguments, normalize_prompt_catalog, normalize_prompt_get,
    normalize_resource_catalog, normalize_resource_read, normalize_tool_call,
    normalize_tool_catalog,
};
use sast_readium::errors::AppError;
use sast_readium::model::{
    MCPPromptArgumentRecord, MCPPromptContent, MCPPromptRecord, MCPPromptRole, MCPRawContent,
    MCPRawPromptMessage, MCPResourceContents, MCPResourceRecord, MCPToolRecord,
};
use sast_readium::registry::MCPClientState;

/// Stand-in peer handle for registry tests.
type FakePeer = u32;

fn handshake() -> Option<MCPHandshake> {
    Some(MCPHandshake {
        protocol_version: "2024-11-05".to_string(),
        has_tools: true,
        has_resources: false,
        has_prompts: false,
        has_logging: false,
    })
}

#[test]
fn connect_twice_yields_already_connected_and_keeps_session() {
    let mut state: MCPClientState<FakePeer> = MCPClientState::new();
    let first = state
        .complete_connect("s1".to_string(), "Echo".to_string(), 7, handshake())
        .expect("first connect");
    assert_eq!(first.status, "connected");

    let second = state.complete_connect("s1".to_string(), "Other".to_string(), 8, None);
    match second {
        Err(AppError::AlreadyConnected(msg)) => {
            assert!(msg.contains("s1"));
        }
        other => panic!("expected AlreadyConnected, got {:?}", other.map(|i| i.server_id)),
    }

    // The original session is intact.
    let session = state.get_session("s1").expect("session still there");
    assert_eq!(session.server_name, "Echo");
    assert_eq!(session.service, 7);
    assert_eq!(state.len(), 1);
}

#[test]
fn disconnect_unknown_id_yields_not_found_and_mutates_nothing() {
    let mut state: MCPClientState<FakePeer> = MCPClientState::new();
    state
        .complete_connect("a".to_string(), "A".to_string(), 1, None)
        .unwrap();
    let r = state.remove_session("missing");
    assert!(matches!(r, Err(AppError::NotFound(_))));
    assert_eq!(state.len(), 1);
    assert!(state.contains_server("a"));
}

#[test]
fn disconnect_then_operations_yield_not_found() {
    let mut state: MCPClientState<FakePeer> = MCPClientState::new();
    state
        .complete_connect("s1".to_string(), "Echo".to_string(), 7, None)
        .unwrap();
    let removed = state.remove_session("s1").expect("disconnect");
    assert_eq!(removed.server_id, "s1");
    assert!(matches!(state.get_session("s1"), Err(AppError::NotFound(_))));
    assert!(matches!(state.remove_session("s1"), Err(AppError::NotFound(_))));
    assert!(!state.contains_server("s1"));
}

#[test]
fn connect_list_disconnect_round_trip() {
    // Connect with id "s1", name "Echo", command "echo", no arguments.
    let config = MCPServerConfig {
        id: "s1".to_string(),
        name: "Echo".to_string(),
        server_type: "stdio".to_string(),
        enabled: true,
        command: Some("echo".to_string()),
        args: Some(vec![]),
        env: None,
        url: None,
        headers: None,
        description: None,
        created_at: 1,
        updated_at: 1,
    };
    let plan = stdio_connect_plan(&config).expect("stdio plan");
    assert_eq!(plan.command, "echo");
    assert!(plan.args.is_empty());

    let mut state: MCPClientState<FakePeer> = MCPClientState::new();
    let info = state
        .complete_connect(config.id.clone(), config.name.clone(), 7, handshake())
        .expect("connect");
    assert_eq!(info.status, "connected");
    assert_eq!(info.server_id, "s1");

    // A peer with zero registered tools lists an empty catalog.
    state.get_session("s1").expect("lookup");
    let tools = normalize_tool_catalog(vec![]);
    assert!(tools.is_empty());

    // After disconnect, the same operation fails NotFound.
    state.remove_session("s1").expect("disconnect");
    assert!(matches!(state.get_session("s1"), Err(AppError::NotFound(_))));
}

#[test]
fn disconnect_all_empties_registry_even_when_one_cancel_fails() {
    let mut state: MCPClientState<FakePeer> = MCPClientState::new();
    for (id, peer) in [("a", 1u32), ("b", 2), ("c", 3)] {
        state
            .complete_connect(id.to_string(), id.to_uppercase(), peer, None)
            .unwrap();
    }
    assert_eq!(state.len(), 3);
    let drained = state.drain_sessions();
    assert_eq!(drained.len(), 3);
    assert_eq!(state.len(), 0);

    // Cancellation happens per session afterwards; one failing does not
    // resurrect anything or fail the aggregate call.
    let mut failures = 0;
    for session in drained {
        let cancel_ok = session.service != 2; // peer 2 refuses to cancel
        if !cancel_ok {
            failures += 1;
        }
    }
    assert_eq!(failures, 1);
    assert_eq!(state.len(), 0);
    assert!(state.connected_clients().is_empty());
}

#[test]
fn capabilities_of_absent_handshake_are_all_false() {
    let caps = extract_capabilities(None);
    assert!(!caps.tools);
    assert!(!caps.resources);
    assert!(!caps.prompts);
    assert!(!caps.logging);
    assert_eq!(extract_protocol_version(None), None);
}

#[test]
fn capabilities_reflect_published_sections() {
    let h = MCPHandshake {
        protocol_version: "2024-11-05".to_string(),
        has_tools: true,
        has_resources: true,
        has_prompts: false,
        has_logging: true,
    };
    let caps = extract_capabilities(Some(&h));
    assert!(caps.tools);
    assert!(caps.resources);
    assert!(!caps.prompts);
    assert!(caps.logging);
    assert_eq!(
        extract_protocol_version(Some(&h)),
        Some("2024-11-05".to_string())
    );
}

#[test]
fn connected_clients_snapshots_sessions() {
    let mut state: MCPClientState<FakePeer> = MCPClientState::new();
    state
        .complete_connect("x".to_string(), "X".to_string(), 1, handshake())
        .unwrap();
    state
        .complete_connect("y".to_string(), "Y".to_string(), 2, None)
        .unwrap();
    let clients = state.connected_clients();
    assert_eq!(clients.len(), 2);
    assert_eq!(clients[0].server_id, "x");
    assert_eq!(clients[0].status, "connected");
    assert!(clients[0].capabilities.tools);
    assert_eq!(clients[0].protocol_version, Some("2024-11-05".to_string()));
    assert_eq!(clients[1].server_id, "y");
    assert!(!clients[1].capabilities.tools);
    assert_eq!(clients[1].protocol_version, None);
}

#[test]
fn non_object_tool_arguments_behave_like_absent() {
    let array: serde_json::Value = serde_json::from_str("[1,2,3]").unwrap();
    let scalar: serde_json::Value = serde_json::from_str("42").unwrap();
    let null: serde_json::Value = serde_json::from_str("null").unwrap();
    assert!(coerce_tool_arguments(Some(array)).is_none());
    assert!(coerce_tool_arguments(Some(scalar)).is_none());
    assert!(coerce_tool_arguments(Some(null)).is_none());
    assert!(coerce_tool_arguments(None).is_none());
}

#[test]
fn object_tool_arguments_are_passed_through() {
    let object: serde_json::Value = serde_json::from_str("{\"key\":\"value\"}").unwrap();
    let map = coerce_tool_arguments(Some(object)).expect("object kept");
    assert_eq!(map.len(), 1);
    assert_eq!(
        map.get("key"),
        Some(&serde_json::Value::String("value".to_string()))
    );
}

#[test]
fn tool_call_normalization_defaults_is_error_to_false() {
    let result = normalize_tool_call(
        vec![MCPRawContent::Text {
            text: "done".to_string(),
        }],
        None,
    );
    assert!(result.success);
    assert!(!result.is_error);
    assert_eq!(result.content.len(), 1);
    assert_eq!(result.content[0].content_type, "text");
    assert_eq!(result.content[0].text.as_deref(), Some("done"));
    assert_eq!(result.content[0].data, None);

    let flagged = normalize_tool_call(vec![], Some(true));
    assert!(flagged.success);
    assert!(flagged.is_error);
    assert!(flagged.content.is_empty());
}

#[test]
fn resource_content_populates_exactly_one_branch() {
    let read = normalize_resource_read(vec![
        MCPResourceContents::Text {
            uri: "file:///a.txt".to_string(),
            mime_type: Some("text/plain".to_string()),
            text: "hello".to_string(),
        },
        MCPResourceContents::Blob {
            uri: "file:///b.bin".to_string(),
            mime_type: None,
            blob: "AAEC".to_string(),
        },
    ]);
    assert_eq!(read.contents.len(), 2);
    let text_item = &read.contents[0];
    assert_eq!(text_item.text.as_deref(), Some("hello"));
    assert_eq!(text_item.blob, None);
    let blob_item = &read.contents[1];
    assert_eq!(blob_item.text, None);
    assert_eq!(blob_item.blob.as_deref(), Some("AAEC"));
}

#[test]
fn empty_catalogs_normalize_to_empty_lists() {
    assert!(normalize_tool_catalog(vec![]).is_empty());
    assert!(normalize_resource_catalog(vec![]).is_empty());
    assert!(normalize_prompt_catalog(vec![]).is_empty());
}

#[test]
fn catalogs_keep_entries_and_default_required() {
    let tools = normalize_tool_catalog(vec![MCPToolRecord {
        name: "search".to_string(),
        description: Some("find things".to_string()),
        input_schema: None,
    }]);
    assert_eq!(tools.len(), 1);
    assert_eq!(tools[0].name, "search");
    assert_eq!(tools[0].description.as_deref(), Some("find things"));

    let resources = normalize_resource_catalog(vec![MCPResourceRecord {
        uri: "file:///x".to_string(),
        name: "x".to_string(),
        description: None,
        mime_type: Some("text/plain".to_string()),
    }]);
    assert_eq!(resources.len(), 1);
    assert_eq!(resources[0].uri, "file:///x");

    let prompts = normalize_prompt_catalog(vec![MCPPromptRecord {
        name: "summarize".to_string(),
        description: None,
        arguments: Some(vec![
            MCPPromptArgumentRecord {
                name: "topic".to_string(),
                description: None,
                required: None,
            },
            MCPPromptArgumentRecord {
                name: "length".to_string(),
                description: None,
                required: Some(true),
            },
        ]),
    }]);
    assert_eq!(prompts.len(), 1);
    let args = prompts[0].arguments.as_ref().unwrap();
    assert!(!args[0].required, "unspecified required defaults to false");
    assert!(args[1].required);
}

#[test]
fn prompt_messages_normalize_roles_and_content() {
    let got = normalize_prompt_get(
        Some("greeting".to_string()),
        vec![
            MCPRawPromptMessage {
                role: MCPPromptRole::User,
                content: MCPPromptContent::Text {
                    text: "hi".to_string(),
                },
            },
            MCPRawPromptMessage {
                role: MCPPromptRole::Assistant,
                content: MCPPromptContent::Resource {
                    resource: MCPResourceContents::Blob {
                        uri: "file:///img".to_string(),
                        mime_type: Some("image/png".to_string()),
                        blob: "QUJD".to_string(),
                    },
                },
            },
        ],
    );
    assert_eq!(got.description.as_deref(), Some("greeting"));
    assert_eq!(got.messages.len(), 2);
    assert_eq!(got.messages[0].role, "user");
    assert_eq!(got.messages[0].content.content_type, "text");
    assert_eq!(got.messages[1].role, "assistant");
    assert_eq!(got.messages[1].content.content_type, "resource");
    assert_eq!(got.messages[1].content.text, None);
    assert_eq!(got.messages[1].content.data.as_deref(), Some("QUJD"));
}

#[test]
fn raw_content_variants_normalize_exhaustively() {
    let result = normalize_tool_call(
        vec![
            MCPRawContent::Image {
                data: "IMG".to_string(),
                mime_type: "image/png".to_string(),
            },
            MCPRawContent::Audio {
                data: "AUD".to_string(),
                mime_type: "audio/wav".to_string(),
            },
            MCPRawContent::ResourceLink {
                uri: "https://example.com/doc".to_string(),
                mime_type: Some("text/html".to_string()),
            },
            MCPRawContent::Resource {
                resource: MCPResourceContents::Text {
                    uri: "file:///n".to_string(),
                    mime_type: None,
                    text: "note".to_string(),
                },
            },
        ],
        Some(false),
    );
    assert!(!result.is_error);
    let c = &result.content;
    assert_eq!(c[0].content_type, "image");
    assert_eq!(c[0].data.as_deref(), Some("IMG"));
    assert_eq!(c[0].mime_type.as_deref(), Some("image/png"));
    assert_eq!(c[1].content_type, "audio");
    assert_eq!(c[2].content_type, "resource_link");
    assert_eq!(c[2].text.as_deref(), Some("https://example.com/doc"));
    assert_eq!(c[3].content_type, "resource");
    assert_eq!(c[3].text.as_deref(), Some("note"));
    assert_eq!(c[3].data, None);
    for item in c {
        assert!(
            !(item.text.is_some() && item.data.is_some()),
            "text and data are never both populated"
        );
    }
}
