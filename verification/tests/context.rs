use codex_runtime::context::compaction::{
    create_compact_context_tool, keep_instructions, CompactContextHandler, PostCompactionContext,
};
use codex_runtime::context::operating_contract::{
    InternalSessionSource, OperatingContractState, PreviousSectionState, SessionSource,
    SubAgentSource,
};
use codex_runtime::context::status::{
    create_context_status_tool, ActiveTask, ContextStatusHandler, TaskKind, TokenStatus,
    TokenUsageInfo, TurnFacts,
};
use codex_runtime::context::tool::{ParameterType, ToolPayload};
use serde_json::Value;

#[test]
fn description_preserves_conversation_and_goal_lifecycle() {
    let tool = create_compact_context_tool();
    assert!(tool.description.contains("continues the same conversation"));
    assert!(tool
        .description
        .contains("does not create, clear, complete, block, or transfer a task or goal"));
}

#[test]
fn the_compaction_tool_takes_three_optional_parameters() {
    let handler = CompactContextHandler;
    let tool = handler.spec();
    assert_eq!(tool.name, handler.tool_name());
    assert_eq!(tool.name, "compact_context");
    assert!(!tool.strict && !tool.additional_properties);
    let parameters: Vec<(&str, ParameterType)> = tool
        .parameters
        .iter()
        .map(|p| (p.name.as_str(), p.parameter_type))
        .collect();
    assert_eq!(
        parameters,
        [
            ("discard_images", ParameterType::Truth),
            ("instructions", ParameterType::Text),
            ("retry_websocket", ParameterType::Truth),
        ]
    );
}

#[test]
fn a_compaction_is_scheduled_for_the_active_turn_only() {
    let handler = CompactContextHandler;
    assert_eq!(handler.begin(ToolPayload::Function), Ok(()));
    assert_eq!(
        handler.begin(ToolPayload::Other),
        Err("compact_context handler received unsupported payload".to_string())
    );
    assert_eq!(
        handler.conclude("turn-1", true),
        Ok(
            r#"{"message":"Context compaction is scheduled before the next model step.","scheduled":true,"turn_id":"turn-1"}"#
                .to_string()
        )
    );
    assert_eq!(
        handler.conclude("turn-1", false),
        Err("compact_context could not find its active turn".to_string())
    );
}

#[test]
fn configured_instructions_follow_the_marker() {
    assert_eq!(keep_instructions(None), None);
    assert_eq!(keep_instructions(Some(" \n\t")), None);
    assert_eq!(
        keep_instructions(Some("  keep this\n")),
        Some("keep this".to_string())
    );
    let context = PostCompactionContext::new(Some(" keep this "));
    assert_eq!(
        context.body("# Compacted\n\n"),
        "# Compacted\n\n# Configured post-compaction instructions\n\nkeep this"
    );
    assert_eq!(context.role(), "developer");
    assert!(context.requires_separate_message());
    assert_eq!(context.markers(), ("", ""));
    for nothing in [None, Some(""), Some(" \u{2003}\n")] {
        let context = PostCompactionContext::new(nothing);
        assert_eq!(context.configured_prompt, None);
        assert_eq!(context.body(" marker \n"), " marker");
    }
}

#[test]
fn configured_instructions_are_cut_to_their_limit() {
    let mut context = PostCompactionContext::new(Some(" keep this and that "));
    assert_eq!(context.uncut_prompt(), Some(("keep this and that", 2000)));
    context.cut_prompt("keep this".to_string());
    assert_eq!(context.configured_prompt, Some("keep this".to_string()));
    let mut context = PostCompactionContext::new(Some(" "));
    assert_eq!(context.uncut_prompt(), None);
    context.cut_prompt("nothing".to_string());
    assert_eq!(context.configured_prompt, None);
}

fn told(contract: &str, epoch: &str) -> PreviousSectionState {
    PreviousSectionState::Known {
        snapshot: OperatingContractState::new(epoch.to_string()).snapshot(contract),
    }
}

#[test]
fn changing_a_preceding_extension_reemits_the_contract_after_it() {
    let current = OperatingContractState::new(r#"{"policy":"after"}"#.to_string());
    let rendered = current
        .render_diff(&told("digest", r#"{"policy":"before"}"#), " Be honest.\n", "digest")
        .expect("the contract is told again");
    assert!(rendered.starts_with("<operating_contract>"));
    assert_eq!(
        rendered,
        "<operating_contract>\nBe honest.\n</operating_contract>"
    );
}

#[test]
fn changing_same_mode_collaboration_text_reemits_the_contract_after_it() {
    let current = OperatingContractState::new("after".to_string());
    let rendered = current
        .render_diff(&told("digest", "before"), "Be honest.", "digest")
        .expect("the contract is told again");
    assert!(rendered.starts_with("<operating_contract>"));
}

#[test]
fn unchanged_preceding_state_does_not_repeat_the_contract() {
    let current = OperatingContractState::new(r#"{"policy":"same"}"#.to_string());
    let previous = told("digest", r#"{"policy":"same"}"#);
    assert_eq!(current.render_diff(&previous, "Be honest.", "digest"), None);
    assert!(current
        .render_diff(&previous, "Be kind.", "another digest")
        .is_some());
    assert!(current
        .render_diff(&PreviousSectionState::Absent, "Be honest.", "digest")
        .is_some());
    assert!(current
        .render_diff(&PreviousSectionState::Unknown, "Be honest.", "digest")
        .is_some());
}

#[test]
fn the_contract_is_a_developer_message() {
    let state = OperatingContractState::new("epoch".to_string());
    assert_eq!(state.role(), "developer");
    assert_eq!(state.content_kind(), "operating_contract.instructions");
    assert_eq!(state.body("  text  "), "\ntext\n");
    assert!(OperatingContractState::matches_legacy_fragment("developer", true));
    assert!(!OperatingContractState::matches_legacy_fragment("user", true));
    assert!(!OperatingContractState::matches_legacy_fragment("developer", false));
    assert!(OperatingContractState::has_retained_fragment_matcher());
    assert!(OperatingContractState::matches_retained_fragment("developer", true));
    assert!(!OperatingContractState::matches_retained_fragment("user", true));
    assert_eq!(state.markers(), OperatingContractState::type_markers());
}

#[test]
fn specialized_sessions_are_excluded_and_ordinary_sessions_are_included() {
    let excluded = [
        SessionSource::Internal(InternalSessionSource::Guardian),
        SessionSource::Internal(InternalSessionSource::MemoryConsolidation),
        SessionSource::SubAgent(SubAgentSource::Other("guardian".to_string())),
        SessionSource::SubAgent(SubAgentSource::Review),
        SessionSource::SubAgent(SubAgentSource::Compact),
        SessionSource::SubAgent(SubAgentSource::MemoryConsolidation),
    ];
    for source in excluded {
        assert!(!OperatingContractState::applies_to(&source), "{source:?}");
    }

    let included = [
        SessionSource::Cli,
        SessionSource::SubAgent(SubAgentSource::ThreadSpawn),
        SessionSource::SubAgent(SubAgentSource::Other("scribe".to_string())),
        SessionSource::Client,
    ];
    for source in included {
        assert!(OperatingContractState::applies_to(&source), "{source:?}");
    }
}

fn turn() -> TurnFacts {
    TurnFacts {
        model: "m".to_string(),
        model_provider: "p".to_string(),
        reasoning_effort: "high".to_string(),
        thread_id: "thread".to_string(),
        turn_id: "turn".to_string(),
    }
}

#[test]
fn status_reports_what_is_left_of_the_context() {
    let handler = ContextStatusHandler;
    let tokens = TokenStatus {
        active_context_tokens: 250,
        full_context_window_limit: Some(1000),
        auto_compact_scope_tokens: 900,
        auto_compact_scope_limit: Some(800),
    };
    let usage = TokenUsageInfo {
        total_token_usage: r#"{"total_tokens":9}"#.to_string(),
        last_token_usage: r#"{"total_tokens":4}"#.to_string(),
    };
    let task = ActiveTask {
        turn_id: "turn".to_string(),
        kind: TaskKind::Review,
    };
    let output = handler
        .handle(ToolPayload::Function, &turn(), Some(&task), tokens, Some(usage))
        .expect("status");
    assert_eq!(output.percent_basis, Some((250, 1000)));
    let text = output.rendered("25.0");
    let value: Value = serde_json::from_str(&text).expect("valid status json");
    assert_eq!(value["turn_active"], true);
    assert_eq!(value["turn_kind"], "review");
    assert_eq!(value["context_tokens_remaining"], 750);
    assert_eq!(value["context_window_percent_used"], 25.0);
    assert_eq!(value["auto_compact_tokens_remaining"], 0);
    assert_eq!(value["session_total_usage"]["total_tokens"], 9);
    assert_eq!(value["last_model_usage"]["total_tokens"], 4);
}

#[test]
fn status_without_a_window_says_null() {
    let handler = ContextStatusHandler;
    let tokens = TokenStatus {
        active_context_tokens: -5,
        full_context_window_limit: None,
        auto_compact_scope_tokens: i64::MIN,
        auto_compact_scope_limit: Some(i64::MAX),
    };
    let output = handler
        .handle(ToolPayload::Function, &turn(), None, tokens, None)
        .expect("status");
    assert_eq!(output.auto_compact_tokens_remaining, Some(i64::MAX));
    assert_eq!(
        output.rendered("1.0"),
        "{\"model\":\"m\",\"model_provider\":\"p\",\"reasoning_effort\":\"high\",\"thread_id\":\"thread\",\"turn_id\":\"turn\",\"turn_active\":false,\"turn_kind\":null,\"context_tokens_used\":-5,\"context_window_tokens\":null,\"context_tokens_remaining\":null,\"context_window_percent_used\":null,\"auto_compact_tokens_used\":-9223372036854775808,\"auto_compact_limit\":9223372036854775807,\"auto_compact_tokens_remaining\":9223372036854775807,\"session_total_usage\":null,\"last_model_usage\":null}"
    );
}

#[test]
fn status_refuses_other_payloads_and_windows_without_tokens() {
    let handler = ContextStatusHandler;
    let tokens = TokenStatus {
        active_context_tokens: 1,
        full_context_window_limit: Some(0),
        auto_compact_scope_tokens: 0,
        auto_compact_scope_limit: None,
    };
    assert_eq!(
        handler
            .handle(ToolPayload::Other, &turn(), None, tokens, None)
            .expect_err("unsupported payload"),
        "context_status handler received unsupported payload"
    );
    let output = handler
        .handle(ToolPayload::Function, &turn(), None, tokens, None)
        .expect("status");
    assert_eq!(output.percent_basis, None);
    assert_eq!(output.context_tokens_remaining, Some(0));
    assert_eq!(handler.tool_name(), "context_status");
    assert_eq!(handler.spec(), create_context_status_tool());
}
