use grove::action::Action;
use grove::agent::{Agent, AgentStatus, GitSyncStatus};
use grove::pi::conversion::{action_to_rpc, rpc_to_action};
use grove::pi::rpc_bridge::RpcBridge;
use grove::pi::session::PiSessionManager;
use grove::pi::tool_registry::{first_arg_as_id, ToolMapping, ToolRegistry};
use grove::pi::types::{JsonValue, PiConfig, PiMessage};
use grove::pi::{GitOperation, PiAgent, RpcMessage};
use grove::text::last_line;

const ID: u128 = 0xa1a2a3a4b1b2c1c2d1d2d3d4d5d6d7d8;
const ID_TEXT: &str = "a1a2a3a4-b1b2-c1c2-d1d2-d3d4d5d6d7d8";

#[test]
fn test_config_default() {
    let config = PiConfig::default();
    assert_eq!(config.provider, "anthropic");
}

#[test]
fn test_config_custom() {
    let config = PiConfig {
        provider: "openai".to_string(),
        model: Some("gpt-4".to_string()),
        api_key: Some("sk-test".to_string()),
        session_file: None,
    };
    assert_eq!(config.provider, "openai");
    assert_eq!(config.model.as_ref().unwrap(), "gpt-4");
}

#[test]
fn test_git_tool_mapping_status() {
    assert!(matches!(
        ToolRegistry::map_tool("git", &["status".to_string()]),
        ToolMapping::Action(Action::RefreshSelected)
    ));
}

#[test]
fn test_git_tool_mapping_diff() {
    assert!(matches!(
        ToolRegistry::map_tool("git", &["diff".to_string()]),
        ToolMapping::Action(Action::ToggleDiffView)
    ));
}

#[test]
fn test_editor_tool_mapping() {
    let uuid = uuid::Uuid::new_v4();
    assert!(matches!(
        ToolRegistry::map_tool("editor", &[uuid.to_string()]),
        ToolMapping::Action(Action::OpenInEditor { .. })
    ));
}

#[test]
fn test_terminal_tool_mapping() {
    let uuid = uuid::Uuid::new_v4();
    assert!(matches!(
        ToolRegistry::map_tool("terminal", &[uuid.to_string()]),
        ToolMapping::Action(Action::AttachToDevServer { .. })
    ));
}

#[test]
fn test_unknown_tool_returns_unknown() {
    assert!(matches!(
        ToolRegistry::map_tool("unknown_tool", &[]),
        ToolMapping::Unknown
    ));
}

#[test]
fn test_get_available_tools() {
    let tools = ToolRegistry::get_available_tools();
    assert_eq!(tools.len(), 5);
    assert!(tools.iter().any(|t| t.name == "git"));
    assert!(tools.iter().any(|t| t.name == "editor"));
}

#[test]
fn available_tools_have_their_parameters() {
    let tools = ToolRegistry::get_available_tools();
    let names: Vec<&str> = tools.iter().map(|t| t.name.as_str()).collect();
    assert_eq!(names, vec!["git", "editor", "file_ops", "terminal", "debug"]);
    assert_eq!(tools[0].parameters, vec!["command".to_string(), "args".to_string()]);
    assert_eq!(tools[3].description, "Attach to terminal/development server");
    assert!(tools[4].parameters.is_empty());
}

#[test]
fn editor_mapping_carries_the_parsed_id() {
    match ToolRegistry::map_tool("editor", &[ID_TEXT.to_string()]) {
        ToolMapping::Action(Action::OpenInEditor { id }) => assert_eq!(id, ID),
        other => panic!("unexpected mapping {:?}", other),
    }
}

#[test]
fn file_ops_with_bad_id_refreshes() {
    assert!(matches!(
        ToolRegistry::map_tool("file_ops", &["not-a-uuid".to_string()]),
        ToolMapping::Action(Action::RefreshSelected)
    ));
    assert!(matches!(
        ToolRegistry::map_tool("terminal", &[]),
        ToolMapping::Action(Action::RefreshSelected)
    ));
    assert!(matches!(ToolRegistry::map_tool("debug", &[]), ToolMapping::Action(Action::ToggleStatusDebug)));
    assert!(matches!(ToolRegistry::map_tool("test", &[]), ToolMapping::Action(Action::RefreshSelected)));
}

#[test]
fn open_in_editor_becomes_editor_tool_request() {
    match action_to_rpc(&Action::OpenInEditor { id: ID }) {
        Some(RpcMessage::ExecuteTool { tool, args }) => {
            assert_eq!(tool, "editor");
            assert_eq!(args, vec![ID_TEXT.to_string()]);
        }
        other => panic!("unexpected message {:?}", other),
    }
}

#[test]
fn pi_start_session_uses_id_text_as_name() {
    match action_to_rpc(&Action::PiStartSession { id: ID, branch: "main".to_string() }) {
        Some(RpcMessage::CreateAgent { name, branch }) => {
            assert_eq!(name, ID_TEXT);
            assert_eq!(branch, "main");
        }
        other => panic!("unexpected message {:?}", other),
    }
}

#[test]
fn non_forwardable_actions_give_no_message() {
    assert!(action_to_rpc(&Action::RefreshSelected).is_none());
    assert!(action_to_rpc(&Action::SubmitInput).is_none());
}

#[test]
fn actions_round_trip_through_messages() {
    let actions = vec![
        Action::AttachToAgent { id: 7 },
        Action::DetachFromAgent,
        Action::UpdateAgentOutput { id: 7, output: "out".to_string() },
        Action::FetchRemote { id: 7 },
        Action::MergeMain { id: 8 },
        Action::PushBranch { id: 9 },
        Action::UpdateGitStatus { id: 3, status: GitSyncStatus { ahead: 1, behind: 2 } },
        Action::OpenInEditor { id: ID },
        Action::CopyWorktreePath { id: ID },
        Action::AttachToDevServer { agent_id: ID },
        Action::CreateAgent { name: "a".to_string(), branch: "b".to_string(), task: None },
        Action::UpdateAgentStatus { id: 1, status: AgentStatus::Error("x".to_string()), status_reason: None },
    ];
    for a in actions {
        let m = action_to_rpc(&a).expect("converts");
        assert_eq!(rpc_to_action(m), a);
    }
}

#[test]
fn git_operation_uses_message_id_except_status_update() {
    let a = rpc_to_action(RpcMessage::GitOperation { id: 1, operation: GitOperation::FetchRemote { id: 2 } });
    assert_eq!(a, Action::FetchRemote { id: 1 });
    let s = GitSyncStatus { ahead: 0, behind: 4 };
    let a = rpc_to_action(RpcMessage::GitOperation { id: 1, operation: GitOperation::UpdateGitStatus { id: 2, status: s } });
    assert_eq!(a, Action::UpdateGitStatus { id: 2, status: s });
}

#[test]
fn conversion_turns_git_diff_into_refresh() {
    let a = rpc_to_action(RpcMessage::ExecuteTool { tool: "git".to_string(), args: vec!["diff".to_string()] });
    assert_eq!(a, Action::RefreshSelected);
    let a = rpc_to_action(RpcMessage::ExecuteTool { tool: "debug".to_string(), args: vec![] });
    assert_eq!(a, Action::ToggleStatusDebug);
}

fn sample_agent() -> Agent {
    Agent {
        id: ID,
        name: "agent".to_string(),
        branch: "feature".to_string(),
        worktree_path: "/tmp/wt".to_string(),
        status: AgentStatus::Idle,
        output_buffer: vec!["line".to_string()],
        tmux_session: "grove-agent".to_string(),
    }
}

#[test]
fn adapter_forwards_output_and_answers_snapshots() {
    let agent = PiAgent::new(sample_agent());
    let fx = agent.handle_rpc_message(RpcMessage::Output { id: 5, output: "hello".to_string() });
    assert_eq!(fx.actions, vec![Action::UpdateAgentOutput { id: 5, output: "hello".to_string() }]);
    assert_eq!(fx.forward_output, Some("hello".to_string()));
    assert!(fx.reply.is_none());

    let fx = agent.handle_rpc_message(RpcMessage::RequestSnapshot { id: 5 });
    assert!(fx.actions.is_empty());
    match fx.reply {
        Some(RpcMessage::SnapshotResponse(s)) => {
            assert_eq!(s.id, ID);
            assert_eq!(s.name, "agent");
            assert_eq!(s.output, vec!["line".to_string()]);
            assert_eq!(s.tmux_session, "grove-agent");
        }
        other => panic!("unexpected reply {:?}", other),
    }
}

#[test]
fn adapter_maps_git_diff_to_diff_view() {
    let agent = PiAgent::new(sample_agent());
    let fx = agent.handle_rpc_message(RpcMessage::ExecuteTool { tool: "git".to_string(), args: vec!["diff".to_string()] });
    assert_eq!(fx.actions, vec![Action::ToggleDiffView]);
    let fx = agent.handle_rpc_message(RpcMessage::ExecuteTool { tool: "nope".to_string(), args: vec![] });
    assert_eq!(fx.actions, vec![Action::RefreshSelected]);
}

#[test]
fn manager_does_not_forward_agent_creation() {
    let mut m = PiSessionManager::new();
    assert_eq!(m.add_agent(sample_agent()), ID);
    assert_eq!(m.agent_count(), 1);
    let create = Action::CreateAgent { name: "a".to_string(), branch: "b".to_string(), task: None };
    assert!(m.forward_to_pi(&create).is_none());
    assert!(action_to_rpc(&create).is_some());
    match m.forward_to_pi(&Action::PiSendMessage { id: 1, message: "hi".to_string() }) {
        Some(RpcMessage::ExecuteTool { tool, args }) => {
            assert_eq!(tool, "send");
            assert_eq!(args, vec!["hi".to_string()]);
        }
        other => panic!("unexpected message {:?}", other),
    }
}

#[test]
fn config_env_lists_key_model_and_provider() {
    let config = PiConfig {
        provider: "openai".to_string(),
        model: Some("gpt-4".to_string()),
        api_key: Some("sk-test".to_string()),
        session_file: None,
    };
    let mut env = Vec::new();
    config.apply_env(&mut env);
    assert_eq!(
        env,
        vec![
            ("OPENAI_API_KEY".to_string(), "sk-test".to_string()),
            ("PI_MODEL".to_string(), "gpt-4".to_string()),
            ("PI_PROVIDER".to_string(), "openai".to_string()),
        ]
    );
    let other = PiConfig { provider: "local".to_string(), model: None, api_key: Some("k".to_string()), session_file: None };
    let mut env = Vec::new();
    other.apply_env(&mut env);
    assert_eq!(env, vec![("PI_PROVIDER".to_string(), "local".to_string())]);
}

#[test]
fn execute_request_carries_prompt() {
    let msg = PiMessage::new_execute("test prompt");
    assert_eq!(msg.jsonrpc, "2.0");
    assert_eq!(msg.id, Some(1));
    assert_eq!(msg.method.as_deref(), Some("execute"));
    assert_eq!(
        msg.params,
        Some(JsonValue::Object(vec![("prompt".to_string(), JsonValue::Str("test prompt".to_string()))]))
    );
    assert!(msg.result.is_none() && msg.error.is_none());
}

#[test]
fn tool_request_carries_name_and_args() {
    let msg = PiMessage::new_tool("git", vec!["status".to_string()]);
    assert_eq!(msg.method.as_deref(), Some("tool"));
    assert_eq!(
        msg.params,
        Some(JsonValue::Object(vec![
            ("name".to_string(), JsonValue::Str("git".to_string())),
            ("args".to_string(), JsonValue::Array(vec![JsonValue::Str("status".to_string())])),
        ]))
    );
    assert_eq!(PiMessage::new_snapshot().method.as_deref(), Some("snapshot"));
    assert_eq!(PiMessage::new_exit().method.as_deref(), Some("exit"));
    assert!(PiMessage::new_exit().params.is_none());
}

#[test]
fn bridge_tracks_sessions() {
    let mut bridge = RpcBridge::new(PiConfig::default());
    assert!(!bridge.has_session(&ID));
    bridge.register_session(ID, "/tmp/s.jsonl".to_string());
    assert!(bridge.has_session(&ID));
    assert_eq!(bridge.session_path(&ID), Some("/tmp/s.jsonl".to_string()));
    bridge.close_session(&ID);
    assert!(!bridge.has_session(&ID));
    assert_eq!(bridge.session_path(&ID), None);
}

#[test]
fn session_files_are_named_by_id() {
    assert_eq!(RpcBridge::session_file_name(ID), format!("{}.jsonl", ID_TEXT));
}

#[test]
fn session_dir_prefers_configuration_then_environment() {
    let config = PiConfig { session_file: Some("/var/pi".to_string()), ..PiConfig::default() };
    let bridge = RpcBridge::new(config);
    assert_eq!(bridge.session_dir(Some("/env/dir".to_string())), "/var/pi");
    let bridge = RpcBridge::new(PiConfig::default());
    assert_eq!(bridge.session_dir(Some("/env/dir".to_string())), "/env/dir");
    let default_dir = bridge.session_dir(None);
    assert!(default_dir.ends_with("/.pi/agent/sessions"));
    assert!(!default_dir.starts_with('~'));
}

#[test]
fn last_line_of_session_file() {
    assert_eq!(last_line("{\"a\":1}\n{\"b\":2}\n"), Some("{\"b\":2}".to_string()));
    assert_eq!(last_line("one\r\ntwo"), Some("two".to_string()));
    assert_eq!(last_line("one\r\ntwo\r\n"), Some("two".to_string()));
    assert_eq!(last_line("one\n\n"), None);
    assert_eq!(last_line(""), None);
}

#[test]
fn round_trips_through_pi() {
    let there_and_back = |a: Action| action_to_rpc(&a).map(rpc_to_action);
    assert_eq!(there_and_back(Action::OpenInEditor { id: ID }), Some(Action::OpenInEditor { id: ID }));
    assert_eq!(there_and_back(Action::MergeMain { id: ID }), Some(Action::MergeMain { id: ID }));
    assert_eq!(there_and_back(Action::ToggleHelp), None);
    let m = RpcMessage::ExecuteTool { tool: "terminal".to_string(), args: vec![ID_TEXT.to_string()] };
    match action_to_rpc(&rpc_to_action(m)) {
        Some(RpcMessage::ExecuteTool { tool, args }) => assert_eq!((tool.as_str(), args), ("terminal", vec![ID_TEXT.to_string()])),
        other => panic!("unexpected {:?}", other),
    }
    let upper = RpcMessage::ExecuteTool { tool: "editor".to_string(), args: vec![ID_TEXT.to_uppercase()] };
    match action_to_rpc(&rpc_to_action(upper)) {
        Some(RpcMessage::ExecuteTool { tool, args }) => assert_eq!((tool.as_str(), args), ("editor", vec![ID_TEXT.to_string()])),
        other => panic!("unexpected {:?}", other),
    }
}

#[test]
fn identifiers_parse_in_every_uuid_form() {
    let one = |t: &str| first_arg_as_id(&[t.to_string()]);
    assert_eq!(one(ID_TEXT), Some(ID));
    assert_eq!(one("A1A2A3A4-B1B2-C1C2-D1D2-D3D4D5D6D7D8"), Some(ID));
    assert_eq!(one("a1a2a3a4b1b2c1c2d1d2d3d4d5d6d7d8"), Some(ID));
    assert_eq!(one("{a1a2a3a4-b1b2-c1c2-d1d2-d3d4d5d6d7d8}"), Some(ID));
    assert_eq!(one("URN:uuid:a1a2a3a4-b1b2-c1c2-d1d2-d3d4d5d6d7d8"), Some(ID));
    assert_eq!(one("urn:uuid:a1a2a3a4b1b2c1c2d1d2d3d4d5d6d7d8"), None);
    assert_eq!(one("(a1a2a3a4-b1b2-c1c2-d1d2-d3d4d5d6d7d8)"), None);
    assert_eq!(one("a1a2a3a4-b1b2-c1c2-d1d2-d3d4d5d6d7dg"), None);
    assert_eq!(one("a1a2a3a4_b1b2-c1c2-d1d2-d3d4d5d6d7d8"), None);
    assert_eq!(one(""), None);
    assert_eq!(first_arg_as_id(&[]), None);
}
