//! Tests of the agent loop controller and of one whole round: the
//! iteration cap, completion detection, the unknown-tool error, and
//! the end-to-end tool-call scenario.

use opencode::agent::{
    assemble_assistant_message, has_completion_marker, initial_task_prompt, run_tool_batch,
    AgentController, AgentStatus, ChunkAssembler, RoundOutcome, MAX_ITERATIONS,
};
use opencode::config::Config;
use opencode::context_manager::ContextManager;
use opencode::execution::{SecurityPolicy, ToolExecutionEngine};
use opencode::models::{Message, Role, ToolCall, ToolCallFunction};
use opencode::registry::ToolRegistry;
use opencode::tool_result_format::format_tool_result;
use opencode::tools::{ToolError, ToolHost};

/// A host that answers every file search with one fixed hit.
struct ScriptedHost {
    calls: Vec<(String, String)>,
}

impl ToolHost for ScriptedHost {
    fn execute_tool(&mut self, name: &str, arguments: &str) -> Result<String, ToolError> {
        self.calls.push((name.to_string(), arguments.to_string()));
        Ok("{\"found_files\":[\"src/main.rs\"]}".to_string())
    }

    fn confirm_execution(&mut self, _name: &str, _arguments: &str) -> bool {
        true
    }
}

/// A host whose user declines every gated call.
struct DenyingHost {
    calls: Vec<(String, String)>,
}

impl ToolHost for DenyingHost {
    fn execute_tool(&mut self, name: &str, arguments: &str) -> Result<String, ToolError> {
        self.calls.push((name.to_string(), arguments.to_string()));
        Ok("{}".to_string())
    }

    fn confirm_execution(&mut self, _name: &str, _arguments: &str) -> bool {
        false
    }
}

#[test]
fn agent_loop_stalls_at_exactly_the_iteration_cap() {
    let mut controller = AgentController::new(MAX_ITERATIONS);
    let mut rounds = 0usize;
    while controller.is_running() {
        controller.step(RoundOutcome::Assistant {
            has_content: false,
            completion_marker: false,
            had_tool_calls: true,
            tool_failed: false,
        });
        rounds += 1;
        assert!(rounds <= MAX_ITERATIONS, "the loop must never run past its cap");
    }
    assert_eq!(rounds, MAX_ITERATIONS);
    assert_eq!(controller.status, AgentStatus::Stalled);
    assert_eq!(controller.iteration, MAX_ITERATIONS);
}

#[test]
fn agent_loop_completes_on_completion_phrase() {
    let mut controller = AgentController::new(MAX_ITERATIONS);
    controller.step(RoundOutcome::Assistant {
        has_content: true,
        completion_marker: false,
        had_tool_calls: false,
        tool_failed: false,
    });
    assert_eq!(controller.status, AgentStatus::Running);
    controller.step(RoundOutcome::Assistant {
        has_content: true,
        completion_marker: true,
        had_tool_calls: false,
        tool_failed: false,
    });
    assert_eq!(controller.status, AgentStatus::Completed);
}

#[test]
fn agent_loop_fails_on_transport_error_and_empty_window() {
    let mut c1 = AgentController::new(MAX_ITERATIONS);
    c1.step(RoundOutcome::TransportError);
    assert_eq!(c1.status, AgentStatus::Failed);

    let mut c2 = AgentController::new(MAX_ITERATIONS);
    c2.step(RoundOutcome::EmptyWindow);
    assert_eq!(c2.status, AgentStatus::Failed);

    let mut c3 = AgentController::new(MAX_ITERATIONS);
    c3.step(RoundOutcome::Assistant {
        has_content: false,
        completion_marker: false,
        had_tool_calls: false,
        tool_failed: false,
    });
    assert_eq!(c3.status, AgentStatus::Stalled);

    let mut c4 = AgentController::new(MAX_ITERATIONS);
    c4.step(RoundOutcome::Assistant {
        has_content: false,
        completion_marker: false,
        had_tool_calls: true,
        tool_failed: true,
    });
    assert_eq!(c4.status, AgentStatus::Failed);
}

#[test]
fn completion_marker_is_case_insensitive_substring() {
    assert!(has_completion_marker("The Task Complete now."));
    assert!(has_completion_marker("...TASK FINISHED!"));
    assert!(!has_completion_marker("still working on it"));
    assert!(!has_completion_marker(""));
}

#[test]
fn initial_prompt_embeds_the_task() {
    let p = initial_task_prompt("tidy the garden");
    assert!(p.starts_with(
        "You are an AI assistant tasked with completing the following objective: 'tidy the garden'."
    ));
    assert!(p.ends_with("indicate if the task is complete."));
}

#[test]
fn unknown_tool_is_a_distinct_not_found_error() {
    let config = Config::default();
    let registry = ToolRegistry::new(&config);
    let engine = ToolExecutionEngine::new(&registry, SecurityPolicy::AllowAll);
    let mut host = ScriptedHost { calls: Vec::new() };
    let (envelope, ok) = engine.execute_tool_call(&mut host, "unknown_tool", "{}", true);
    assert!(!ok);
    assert_eq!(
        envelope,
        "{\"error\":\"Tool 'unknown_tool' not found\",\"tool_name\":\"unknown_tool\"}"
    );
    assert!(host.calls.is_empty(), "the host must not run an unknown tool");
}

#[test]
fn denied_confirmation_short_circuits_to_the_denied_envelope() {
    let config = Config::default();
    let registry = ToolRegistry::new(&config);
    let engine = ToolExecutionEngine::new(&registry, SecurityPolicy::ConfirmWrites);
    let mut host = DenyingHost { calls: Vec::new() };

    // Directly at the engine: a gated call without granted
    // confirmation never reaches the host.
    let (envelope, ok) = engine.execute_tool_call(
        &mut host,
        "FileWriteTool",
        "{\"path\":\"p\",\"content\":\"c\"}",
        false,
    );
    assert!(!ok);
    assert_eq!(
        envelope,
        "{\"error\":\"Execution denied by user\",\"tool_name\":\"FileWriteTool\"}"
    );
    assert!(host.calls.is_empty(), "a denied tool must not run");

    // Through a whole batch: the host's declined confirmation yields
    // the same envelope in the window and fails the batch.
    let mut window = ContextManager::new(Config::default()).unwrap();
    let calls = vec![ToolCall {
        id: "w1".to_string(),
        tool_type: "function".to_string(),
        function: ToolCallFunction {
            name: "FileWriteTool".to_string(),
            arguments: "{\"path\":\"p\",\"content\":\"c\"}".to_string(),
        },
    }];
    let failed = run_tool_batch(&mut window, &engine, &calls, &mut host).unwrap();
    assert!(failed);
    assert!(host.calls.is_empty(), "a denied tool must not run");
    assert_eq!(window.history_len(), 1);
    let reply = window.history_message(0);
    assert_eq!(reply.tool_call_id, Some("w1".to_string()));
    assert_eq!(
        reply.content.unwrap(),
        "{\"error\":\"Execution denied by user\",\"tool_name\":\"FileWriteTool\"}"
    );
}

#[test]
fn batch_rejects_arguments_violating_the_schema() {
    // The batch runs each call through the pipeline's validation:
    // arguments that fail the tool's schema are never executed.
    let config = Config::default();
    let registry = ToolRegistry::new(&config);
    let engine = ToolExecutionEngine::new(&registry, SecurityPolicy::AllowAll);
    let mut window = ContextManager::new(Config::default()).unwrap();
    let mut host = ScriptedHost { calls: Vec::new() };
    let calls = vec![ToolCall {
        id: "bad".to_string(),
        tool_type: "function".to_string(),
        function: ToolCallFunction {
            name: "FileSearchTool".to_string(),
            arguments: "{\"query\":5}".to_string(),
        },
    }];
    let failed = run_tool_batch(&mut window, &engine, &calls, &mut host).unwrap();
    assert!(failed);
    assert!(host.calls.is_empty(), "invalid arguments must not be executed");
    let reply = window.history_message(0).content.unwrap();
    assert!(reply.contains("Schema validation failed"));
    assert!(reply.contains("5 is not of type 'string'"));
}

#[test]
fn needs_confirmation_gates_write_tools_only() {
    let config = Config::default();
    let registry = ToolRegistry::new(&config);
    let confirm = ToolExecutionEngine::new(&registry, SecurityPolicy::ConfirmWrites);
    assert!(confirm.needs_confirmation("FileWriteTool"));
    assert!(confirm.needs_confirmation("ShellCommandTool"));
    assert!(confirm.needs_confirmation("GitTool"));
    assert!(!confirm.needs_confirmation("FileReadTool"));
    let allow = ToolExecutionEngine::new(&registry, SecurityPolicy::AllowAll);
    assert!(!allow.needs_confirmation("FileWriteTool"));
}

#[test]
fn envelope_formats_success_and_error() {
    assert_eq!(
        format_tool_result("FileSearchTool", "{\"found_files\":[\"src/main.rs\"]}", None),
        "{\"result\":{\"found_files\":[\"src/main.rs\"]},\"tool_name\":\"FileSearchTool\"}"
    );
    assert_eq!(
        format_tool_result("t", "", Some("bad \"x\"\nhere")),
        "{\"error\":\"bad \\\"x\\\"\\nhere\",\"tool_name\":\"t\"}"
    );
}

#[test]
fn end_to_end_tool_round_appends_ordered_messages() {
    let config = Config::default();
    let registry = ToolRegistry::new(&config);
    let engine = ToolExecutionEngine::new(&registry, SecurityPolicy::AllowAll);
    let mut window = ContextManager::new(Config::default()).unwrap();
    let mut host = ScriptedHost { calls: Vec::new() };

    window
        .add_message(Message {
            role: Role::User,
            content: Some("list files".to_string()),
            tool_calls: None,
            tool_call_id: None,
        })
        .unwrap();

    let calls = vec![ToolCall {
        id: "call_1".to_string(),
        tool_type: "function".to_string(),
        function: ToolCallFunction {
            name: "FileSearchTool".to_string(),
            arguments: "{\"query\":\"main\"}".to_string(),
        },
    }];
    let assistant = assemble_assistant_message(
        String::new(),
        calls.iter().map(|c| ToolCall {
            id: c.id.clone(),
            tool_type: c.tool_type.clone(),
            function: ToolCallFunction {
                name: c.function.name.clone(),
                arguments: c.function.arguments.clone(),
            },
        }).collect(),
    );
    assert!(assistant.content.is_none());
    window.add_message(assistant).unwrap();

    let failed = run_tool_batch(&mut window, &engine, &calls, &mut host).unwrap();
    assert!(!failed);
    assert_eq!(host.calls.len(), 1);
    assert_eq!(host.calls[0].0, "FileSearchTool");
    assert_eq!(host.calls[0].1, "{\"query\":\"main\"}");

    let messages = window.construct_api_messages().unwrap();
    let n = messages.len();
    assert!(n >= 3);
    // The last two entries are the assistant's tool-call message and
    // the tool's reply, in that order.
    assert_eq!(messages[n - 2].role, Role::Assistant);
    let assistant_calls = messages[n - 2].tool_calls.as_ref().unwrap();
    assert_eq!(assistant_calls.len(), 1);
    assert_eq!(assistant_calls[0].id, "call_1");
    assert_eq!(messages[n - 1].role, Role::Tool);
    assert_eq!(messages[n - 1].tool_call_id, Some("call_1".to_string()));
    let reply = messages[n - 1].content.as_ref().unwrap();
    assert_eq!(
        reply,
        "{\"result\":{\"found_files\":[\"src/main.rs\"]},\"tool_name\":\"FileSearchTool\"}"
    );
}

#[test]
fn tool_batch_marks_parse_failures_and_still_replies() {
    let config = Config::default();
    let registry = ToolRegistry::new(&config);
    let engine = ToolExecutionEngine::new(&registry, SecurityPolicy::AllowAll);
    let mut window = ContextManager::new(Config::default()).unwrap();
    let mut host = ScriptedHost { calls: Vec::new() };

    let calls = vec![
        ToolCall {
            id: "a".to_string(),
            tool_type: "function".to_string(),
            function: ToolCallFunction {
                name: "FileSearchTool".to_string(),
                arguments: "{ not json".to_string(),
            },
        },
        ToolCall {
            id: "b".to_string(),
            tool_type: "function".to_string(),
            function: ToolCallFunction {
                name: "FileSearchTool".to_string(),
                arguments: "{\"query\":\"x\"}".to_string(),
            },
        },
    ];
    let failed = run_tool_batch(&mut window, &engine, &calls, &mut host).unwrap();
    assert!(failed, "a parse failure fails the batch");
    assert_eq!(window.history_len(), 2, "every call in the batch gets its reply");
    assert_eq!(window.history_message(0).tool_call_id, Some("a".to_string()));
    assert_eq!(window.history_message(1).tool_call_id, Some("b".to_string()));
    assert!(window.history_message(0).content.unwrap().contains("\"error\""));
}

#[test]
fn tool_error_messages_render_their_category() {
    let e = ToolError::InvalidArguments {
        tool_name: "t".to_string(),
        details: "d".to_string(),
    };
    assert_eq!(e.message(), "Invalid arguments for tool 't': d");
    let e = ToolError::ExecutionFailed {
        command: "c".to_string(),
        stderr: "boom".to_string(),
    };
    assert_eq!(e.message(), "Execution failed for command 'c': boom");
    let e = ToolError::FileNotFound { path: "p".to_string() };
    assert_eq!(e.message(), "File not found at path: p");
    let e = ToolError::PermissionDenied { resource: "r".to_string() };
    assert_eq!(e.message(), "Permission denied for resource: r");
    let e = ToolError::NetworkError { message: "n".to_string() };
    assert_eq!(e.message(), "Network error: n");
    let e = ToolError::Other { message: "m".to_string() };
    assert_eq!(e.message(), "An unexpected error occurred: m");
}

#[test]
fn chunk_assembler_folds_a_streamed_turn() {
    let mut assembler = ChunkAssembler::new();
    assembler.absorb_content("Hello");
    assembler.absorb_content(" world");
    assembler.absorb_content("!");
    assembler.absorb_tool_call(ToolCall {
        id: "c1".to_string(),
        tool_type: "function".to_string(),
        function: ToolCallFunction {
            name: "FileSearchTool".to_string(),
            arguments: "{\"query\":\"x\"}".to_string(),
        },
    });
    let calls = assembler.tool_calls_copy();
    assert_eq!(calls.len(), 1);
    assert_eq!(calls[0].id, "c1");
    let message = assembler.into_message();
    assert_eq!(message.role, Role::Assistant);
    assert_eq!(message.content, Some("Hello world!".to_string()));
    assert_eq!(message.tool_calls.as_ref().unwrap().len(), 1);

    let empty = ChunkAssembler::new().into_message();
    assert!(empty.content.is_none());
    assert!(empty.tool_calls.is_none());
}

#[test]
fn prompt_texts_are_exact() {
    assert_eq!(
        opencode::prompts::generate_prompt("a widget"),
        "Generate code for the following description. Reply with the code only:\n\na widget"
    );
    assert_eq!(
        opencode::prompts::explain_prompt("let x = 5;"),
        "Explain the following code. Identify the programming language if possible:\n\n```\nlet x = 5;\n```"
    );
    assert_eq!(
        opencode::prompts::edit_prompt("rename x", "let x = 5;"),
        "Apply the following instruction to the file below and reply with the full edited file:\n\nrename x\n\n```\nlet x = 5;\n```"
    );
    assert_eq!(
        opencode::prompts::shell_explain_prompt("ls -la"),
        "Explain this shell command:\n\nls -la"
    );
    assert_eq!(
        opencode::prompts::shell_suggest_prompt("list files"),
        "Suggest a shell command that does the following:\n\nlist files"
    );
    assert_eq!(
        opencode::prompts::file_prompt("Debug this error", "it broke", Some("fn main() {}")),
        "Debug this error:\n\nit broke\n\n```\nfn main() {}\n```"
    );
    assert_eq!(opencode::prompts::file_prompt("Write tests for this file", "", None), "Write tests for this file");
}
