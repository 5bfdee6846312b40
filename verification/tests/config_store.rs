use sast_readium::config::{
    apply_process_update, ClaudeDesktopMCPServer, MCPImportPayload, MCPServerConfig,
    MCPServerStatus, MCPServersStore, ProcessExit,
};
use sast_readium::errors::AppError;
use sast_readium::import_export::{
    assemble_import_servers, convert_claude_desktop_server, import_servers_into_store,
};
use sast_readium::presets::get_mcp_server_presets;
use sast_readium::storage::{
    add_server_to_store, delete_server_from_store, update_server_in_store,
};

fn stdio_config(id: &str, name: &str) -> MCPServerConfig {
    MCPServerConfig {
        id: id.to_string(),
        name: name.to_string(),
        server_type: "stdio".to_string(),
        enabled: false,
        command: Some("npx".to_string()),
        args: Some(vec!["-y".to_string(), "test".to_string()]),
        env: None,
        url: None,
        headers: None,
        description: None,
        created_at: 0,
        updated_at: 0,
    }
}

#[test]
fn convert_claude_desktop_server_infers_type() {
    let stdio_server = ClaudeDesktopMCPServer {
        command: Some("npx".to_string()),
        args: Some(vec!["-y".to_string(), "test".to_string()]),
        env: None,
        url: None,
        headers: None,
        server_type: None,
    };

    let converted = convert_claude_desktop_server("test", &stdio_server);
    assert_eq!(converted.server_type, "stdio");

    let http_server = ClaudeDesktopMCPServer {
        command: None,
        args: None,
        env: None,
        url: Some("http://localhost:3000".to_string()),
        headers: None,
        server_type: None,
    };

    let converted = convert_claude_desktop_server("http-test", &http_server);
    assert_eq!(converted.server_type, "http");
}

#[test]
fn convert_claude_desktop_server_builds_prefixed_id() {
    let server = ClaudeDesktopMCPServer {
        command: Some("npx".to_string()),
        args: None,
        env: None,
        url: None,
        headers: None,
        server_type: None,
    };
    let converted = convert_claude_desktop_server("Test Server", &server);
    assert!(converted.id.starts_with("imported_test_server_"));
    assert_eq!(converted.name, "Test Server");
    assert!(!converted.enabled, "imported servers start disabled");
    assert_eq!(
        converted.description.as_deref(),
        Some("Imported from external configuration")
    );
    assert_eq!(converted.created_at, converted.updated_at);
}

#[test]
fn connect_from_config_rejects_non_stdio_before_any_attempt() {
    // connectFromConfig({id:"s2", name:"X", type:"http", url:"http://x"})
    let config = MCPServerConfig {
        id: "s2".to_string(),
        name: "X".to_string(),
        server_type: "http".to_string(),
        enabled: true,
        command: None,
        args: None,
        env: None,
        url: Some("http://x".to_string()),
        headers: None,
        description: None,
        created_at: 0,
        updated_at: 0,
    };
    match sast_readium::config::stdio_connect_plan(&config) {
        Err(AppError::UnsupportedTransport(_)) => {}
        other => panic!(
            "expected UnsupportedTransport, got {:?}",
            other.map(|p| p.command)
        ),
    }
}

#[test]
fn stdio_config_without_command_is_a_configuration_error() {
    let mut config = stdio_config("s3", "NoCmd");
    config.command = None;
    assert!(matches!(
        sast_readium::config::stdio_connect_plan(&config),
        Err(AppError::Mcp(_))
    ));
}

#[test]
fn stdio_connect_plan_carries_command_args_env() {
    let mut config = stdio_config("s4", "Full");
    config.env = Some(vec![("KEY".to_string(), "VALUE".to_string())]);
    let plan = sast_readium::config::stdio_connect_plan(&config).unwrap();
    assert_eq!(plan.command, "npx");
    assert_eq!(plan.args, vec!["-y".to_string(), "test".to_string()]);
    assert_eq!(plan.env, vec![("KEY".to_string(), "VALUE".to_string())]);
}

#[test]
fn mcp_server_presets_generate_unique_ids_and_defaults() {
    let presets = get_mcp_server_presets();
    assert_eq!(presets.len(), 4);
    assert!(presets.iter().all(|preset| preset.id.starts_with("preset_")));
    assert!(presets.iter().all(|preset| preset.created_at > 0));
}

#[test]
fn mcp_server_presets_have_distinct_ids_and_stdio_shape() {
    let presets = get_mcp_server_presets();
    for p in &presets {
        assert_eq!(p.server_type, "stdio");
        assert!(!p.enabled);
        assert_eq!(p.command.as_deref(), Some("npx"));
        assert!(p.args.is_some());
        assert!(p.description.is_some());
    }
    for i in 0..presets.len() {
        for j in (i + 1)..presets.len() {
            assert_ne!(presets[i].id, presets[j].id);
        }
    }
}

#[test]
fn assemble_handles_servers_array() {
    let payload = MCPImportPayload {
        version: Some(1),
        source: None,
        servers: Some(vec![MCPServerConfig {
            id: "server1".to_string(),
            name: "Server 1".to_string(),
            server_type: "stdio".to_string(),
            enabled: false,
            command: Some("npx".to_string()),
            args: Some(vec!["-y".to_string(), "test".to_string()]),
            env: None,
            url: None,
            headers: None,
            description: None,
            created_at: 0,
            updated_at: 0,
        }]),
        mcp_servers: None,
    };

    let servers = assemble_import_servers(payload);

    assert_eq!(servers.len(), 1);
    assert_eq!(servers[0].name, "Server 1");
    assert_eq!(servers[0].command, Some("npx".to_string()));
    assert!(servers[0].created_at > 0, "zero timestamps are filled in");
}

#[test]
fn assemble_handles_external_mcp_servers_format() {
    let payload = MCPImportPayload {
        version: None,
        source: None,
        servers: None,
        mcp_servers: Some(vec![
            (
                "filesystem".to_string(),
                ClaudeDesktopMCPServer {
                    command: Some("npx".to_string()),
                    args: Some(vec![
                        "-y".to_string(),
                        "@modelcontextprotocol/server-filesystem".to_string(),
                        ".".to_string(),
                    ]),
                    env: None,
                    url: None,
                    headers: None,
                    server_type: None,
                },
            ),
            (
                "github".to_string(),
                ClaudeDesktopMCPServer {
                    command: Some("npx".to_string()),
                    args: Some(vec![
                        "-y".to_string(),
                        "@modelcontextprotocol/server-github".to_string(),
                    ]),
                    env: Some(vec![("GITHUB_TOKEN".to_string(), "test-token".to_string())]),
                    url: None,
                    headers: None,
                    server_type: None,
                },
            ),
        ]),
    };

    let servers = assemble_import_servers(payload);

    assert_eq!(servers.len(), 2);

    let fs_server = servers.iter().find(|s| s.name == "filesystem").unwrap();
    assert_eq!(fs_server.server_type, "stdio");
    assert_eq!(fs_server.command, Some("npx".to_string()));

    let gh_server = servers.iter().find(|s| s.name == "github").unwrap();
    assert!(gh_server.env.is_some());
    assert_eq!(
        gh_server.env.as_ref().unwrap()[0],
        ("GITHUB_TOKEN".to_string(), "test-token".to_string())
    );
}

#[test]
fn assemble_assigns_ids_when_missing() {
    let payload = MCPImportPayload {
        version: None,
        source: None,
        servers: Some(vec![MCPServerConfig {
            id: "".to_string(),
            name: "No ID Server".to_string(),
            server_type: "stdio".to_string(),
            enabled: false,
            command: Some("test".to_string()),
            args: None,
            env: None,
            url: None,
            headers: None,
            description: None,
            created_at: 0,
            updated_at: 0,
        }]),
        mcp_servers: None,
    };

    let servers = assemble_import_servers(payload);

    assert_eq!(servers.len(), 1);
    assert!(!servers[0].id.is_empty());
    assert!(servers[0].id.starts_with("imported_"));
}

#[test]
fn import_skips_duplicates_and_invalid_records_without_failing() {
    let mut store = MCPServersStore {
        version: 1,
        servers: vec![stdio_config("kept", "Existing")],
        updated_at: 5,
    };
    let mut no_command = stdio_config("bad1", "NoCommand");
    no_command.command = None;
    let mut no_url = stdio_config("bad2", "NoUrl");
    no_url.server_type = "http".to_string();
    let imported = vec![
        stdio_config("dup", "Existing"), // duplicate name while merging
        no_command,
        no_url,
        stdio_config("ok", "Fresh"),
    ];

    let result = import_servers_into_store(&mut store, imported, true);

    assert!(result.success);
    assert_eq!(result.imported_count, 1);
    assert_eq!(result.skipped_count, 3);
    assert_eq!(result.errors.len(), 3);
    assert!(result.errors[0].contains("already exists"));
    assert!(result.errors[1].contains("requires command"));
    assert!(result.errors[2].contains("requires url"));
    assert_eq!(store.servers.len(), 2);
    assert_eq!(store.servers[1].name, "Fresh");
    assert_eq!(store.version, 1);
    assert_eq!(result.servers.len(), 2);
}

#[test]
fn import_without_merge_ignores_existing_names() {
    let mut store = MCPServersStore {
        version: 1,
        servers: vec![],
        updated_at: 0,
    };
    let result = import_servers_into_store(
        &mut store,
        vec![stdio_config("a", "Name"), stdio_config("b", "Name")],
        false,
    );
    // Without merging, the duplicate-name rule is off.
    assert_eq!(result.imported_count, 2);
    assert_eq!(result.skipped_count, 0);
    assert!(result.success);
}

#[test]
fn add_server_rejects_duplicate_names_and_assigns_ids() {
    let mut store = MCPServersStore {
        version: 0,
        servers: vec![],
        updated_at: 0,
    };
    let mut first = stdio_config("", "Alpha");
    first.created_at = 0;
    let added = add_server_to_store(&mut store, first).expect("added");
    assert!(added.id.starts_with("mcp_"));
    assert!(added.created_at > 0);
    assert_eq!(added.created_at, added.updated_at);
    assert_eq!(store.version, 1);
    assert_eq!(store.servers.len(), 1);

    let again = add_server_to_store(&mut store, stdio_config("other", "Alpha"));
    assert!(matches!(again, Err(AppError::Mcp(_))));
    assert_eq!(store.servers.len(), 1);
}

#[test]
fn update_server_replaces_record_by_id() {
    let mut store = MCPServersStore {
        version: 1,
        servers: vec![stdio_config("u1", "Before")],
        updated_at: 0,
    };
    let mut changed = stdio_config("u1", "After");
    changed.updated_at = 0;
    let updated = update_server_in_store(&mut store, changed).expect("updated");
    assert_eq!(updated.name, "After");
    assert_eq!(store.servers[0].name, "After");

    let missing = update_server_in_store(&mut store, stdio_config("nope", "X"));
    assert!(matches!(missing, Err(AppError::NotFound(_))));
    assert_eq!(store.servers.len(), 1);
}

fn running_status(id: &str) -> MCPServerStatus {
    MCPServerStatus {
        id: id.to_string(),
        status: "running".to_string(),
        pid: Some(42),
        error: None,
        tools: vec![],
    }
}

#[test]
fn process_exit_marks_status_stopped() {
    let mut status = running_status("p1");
    let dropped = apply_process_update(
        &mut status,
        Some(ProcessExit {
            success: true,
            description: "exit status: 0".to_string(),
        }),
        None,
    );
    assert!(dropped);
    assert_eq!(status.status, "stopped");
    assert_eq!(status.pid, None);
    assert!(status.error.is_none());

    let mut failed = running_status("p2");
    apply_process_update(
        &mut failed,
        Some(ProcessExit {
            success: false,
            description: "exit status: 1".to_string(),
        }),
        None,
    );
    assert_eq!(
        failed.error.as_deref(),
        Some("Process exited with: exit status: 1")
    );
}

#[test]
fn poll_error_marks_status_erroneous_without_dropping() {
    let mut status = running_status("p3");
    let dropped = apply_process_update(&mut status, None, Some("no such process".to_string()));
    assert!(!dropped);
    assert_eq!(status.status, "error");
    assert_eq!(status.error.as_deref(), Some("no such process"));
    assert_eq!(status.pid, Some(42));

    let mut untouched = running_status("p4");
    let dropped = apply_process_update(&mut untouched, None, None);
    assert!(!dropped);
    assert_eq!(untouched.status, "running");
}

#[test]
fn delete_server_removes_by_id_and_reports_missing() {
    let mut store = MCPServersStore {
        version: 1,
        servers: vec![stdio_config("d1", "One"), stdio_config("d2", "Two")],
        updated_at: 0,
    };
    delete_server_from_store(&mut store, "d1").expect("deleted");
    assert_eq!(store.servers.len(), 1);
    assert_eq!(store.servers[0].id, "d2");

    let missing = delete_server_from_store(&mut store, "d1");
    assert!(matches!(missing, Err(AppError::NotFound(_))));
    assert_eq!(store.servers.len(), 1);
}
