//! Tests of the conversation window: token accounting, eviction order,
//! and message-list construction.

use opencode::config::Config;
use opencode::context_manager::ContextManager;
use opencode::models::{Message, Role};

fn create_test_manager() -> ContextManager {
    let config = Config::default();
    ContextManager::new(config).expect("Failed to create test ContextManager")
}

fn create_test_manager_with_limit(limit: usize) -> ContextManager {
    let config = Config::default();
    ContextManager::with_token_limit(config, limit).expect("Failed to create test ContextManager")
}

fn user_message(text: &str) -> Message {
    Message {
        role: Role::User,
        content: Some(text.to_string()),
        tool_calls: None,
        tool_call_id: None,
    }
}

#[test]
fn test_token_counting() {
    let manager = create_test_manager();
    let tokens = manager.count_tokens("Hello world").unwrap();
    assert!(tokens > 0, "Token count should be positive");
    assert_eq!(tokens, 2);

    let tokens_complex = manager.count_tokens("複雑なテキスト").unwrap();
    assert!(tokens_complex > 0, "Token count for complex text should be positive");
}

#[test]
fn test_add_message() {
    let mut manager = create_test_manager();
    let msg = user_message("Test message");
    let initial_tokens = manager.total_tokens();

    manager.add_message(msg).unwrap();

    assert_eq!(manager.history_len(), 1);
    assert_eq!(manager.history_message(0).content, Some("Test message".to_string()));
    assert!(manager.total_tokens() > initial_tokens);
    let expected_tokens = manager.count_tokens("Test message").unwrap();
    assert_eq!(manager.history_cost(0), expected_tokens);
}

#[test]
fn test_add_snippet() {
    let mut manager = create_test_manager();
    let source = "file: test.txt".to_string();
    let content = "Snippet content".to_string();
    let initial_tokens = manager.total_tokens();

    manager.add_snippet(source.clone(), content.clone()).unwrap();

    assert_eq!(manager.snippets_len(), 1);
    assert_eq!(manager.snippet_at(0).source, source);
    assert_eq!(manager.snippet_at(0).content, content);
    assert!(manager.total_tokens() > initial_tokens);
    let expected_tokens = manager
        .count_tokens(&ContextManager::format_snippet_content(&source, &content))
        .unwrap();
    assert_eq!(manager.snippet_at(0).token_count, expected_tokens);
}

#[test]
fn test_basic_eviction_history() {
    let mut manager = create_test_manager_with_limit(20);

    for i in 0..10 {
        let msg = user_message(&format!("Message {}", i));
        manager.add_message(msg).unwrap();
    }

    assert!(
        manager.total_tokens() <= manager.max_token_limit(),
        "Total tokens should be within limit after eviction"
    );
    assert!(
        manager.history_len() > 0,
        "History should not be empty after eviction (unless limit is tiny)"
    );
    let mut has_last = false;
    let mut has_first = false;
    for i in 0..manager.history_len() {
        let m = manager.history_message(i);
        if m.content == Some("Message 9".to_string()) {
            has_last = true;
        }
        if m.content == Some("Message 0".to_string()) {
            has_first = true;
        }
    }
    assert!(has_last);
    assert!(!has_first);
}

#[test]
fn test_basic_eviction_snippets() {
    let mut manager = create_test_manager_with_limit(60);

    for i in 0..5 {
        let source = format!("source_{}", i);
        let content = format!("Content for snippet number {}", i);
        manager.add_snippet(source, content).unwrap();
    }

    assert!(
        manager.total_tokens() <= manager.max_token_limit(),
        "Total tokens should be within limit after snippet eviction"
    );
    assert!(manager.snippets_len() > 0, "Snippets should not be empty after eviction");
    let mut has_last = false;
    let mut has_first = false;
    for i in 0..manager.snippets_len() {
        let s = manager.snippet_at(i);
        if s.source == "source_4" {
            has_last = true;
        }
        if s.source == "source_0" {
            has_first = true;
        }
    }
    assert!(has_last);
    assert!(!has_first);
}

#[test]
fn test_eviction_mixed() {
    let mut manager = create_test_manager_with_limit(70);

    manager.add_message(user_message("First user message")).unwrap();
    manager.add_snippet("file1.txt".to_string(), "Snippet one content.".to_string()).unwrap();
    manager
        .add_message(Message {
            role: Role::Assistant,
            content: Some("Assistant response".to_string()),
            tool_calls: None,
            tool_call_id: None,
        })
        .unwrap();
    manager
        .add_snippet("file2.txt".to_string(), "Snippet two content, slightly longer.".to_string())
        .unwrap();
    manager
        .add_message(user_message("Second user message, quite verbose to ensure it pushes limits."))
        .unwrap();

    assert!(
        manager.total_tokens() <= manager.max_token_limit(),
        "Total tokens ({}) should be within limit ({})",
        manager.total_tokens(),
        manager.max_token_limit()
    );
    assert_eq!(manager.history_len(), 3, "Expected 3 history messages, none evicted");
    assert_eq!(manager.snippets_len(), 2, "Expected 2 snippets, none evicted");

    let mut has_oldest_msg = false;
    let mut has_newest_msg = false;
    for i in 0..manager.history_len() {
        let m = manager.history_message(i);
        if m.content.as_ref().map_or(false, |c| c.contains("First user")) {
            has_oldest_msg = true;
        }
        if m.content.as_ref().map_or(false, |c| c.contains("Second user")) {
            has_newest_msg = true;
        }
    }
    let mut has_oldest_snip = false;
    let mut has_newest_snip = false;
    for i in 0..manager.snippets_len() {
        let s = manager.snippet_at(i);
        if s.source == "file1.txt" {
            has_oldest_snip = true;
        }
        if s.source == "file2.txt" {
            has_newest_snip = true;
        }
    }
    assert!(has_oldest_msg, "Oldest message should be present");
    assert!(has_oldest_snip, "Oldest snippet should be present");
    assert!(has_newest_msg, "Newest message should be present");
    assert!(has_newest_snip, "Newest snippet should be present");
}

#[test]
fn test_construct_api_messages_format() {
    let mut manager = create_test_manager();
    manager.add_message(user_message("User query")).unwrap();
    manager.add_snippet("test.rs".to_string(), "let x = 5;".to_string()).unwrap();
    manager
        .add_message(Message {
            role: Role::Assistant,
            content: Some("Assistant reply".to_string()),
            tool_calls: None,
            tool_call_id: None,
        })
        .unwrap();

    let api_messages = manager.construct_api_messages().unwrap();

    assert_eq!(api_messages.len(), 3, "Should have 1 snippet + 2 history messages");

    assert_eq!(api_messages[0].role, Role::System);
    assert!(api_messages[0].content.as_ref().map_or(false, |c| c.contains("Content from test.rs:")));
    assert!(api_messages[0].content.as_ref().map_or(false, |c| c.contains("```\nlet x = 5;\n```")));

    assert_eq!(api_messages[1].role, Role::User);
    assert_eq!(api_messages[1].content, Some("User query".to_string()));
    assert_eq!(api_messages[2].role, Role::Assistant);
    assert_eq!(api_messages[2].content, Some("Assistant reply".to_string()));
}

#[test]
fn test_construct_api_messages_respects_limit() {
    let mut manager = create_test_manager_with_limit(50);

    manager
        .add_snippet(
            "file1.txt".to_string(),
            "Very long snippet content that will definitely exceed the small token limit all by itself.".to_string(),
        )
        .unwrap();
    manager.add_message(user_message("A user message")).unwrap();
    manager
        .add_message(Message {
            role: Role::Assistant,
            content: Some("An assistant message".to_string()),
            tool_calls: None,
            tool_call_id: None,
        })
        .unwrap();

    let api_messages = manager.construct_api_messages().unwrap();

    let final_tokens: usize = api_messages
        .iter()
        .map(|m| m.content.as_ref().map_or(0, |c| manager.count_tokens(c).unwrap()))
        .sum();

    assert!(
        final_tokens <= manager.max_token_limit(),
        "Constructed messages total tokens ({}) should not exceed limit ({})",
        final_tokens,
        manager.max_token_limit()
    );
    assert_eq!(api_messages.len(), 3, "Expected snippet, user message, and assistant message");
    assert_eq!(api_messages[0].role, Role::System, "First message should be the snippet (System)");
    assert_eq!(api_messages[1].role, Role::User, "Second message should be the user message");
    assert_eq!(
        api_messages[2].role,
        Role::Assistant,
        "Third message should be the assistant message"
    );
}

#[test]
fn test_clear_history() {
    let mut manager = create_test_manager();
    manager.add_message(user_message("msg1")).unwrap();
    manager.add_snippet("file.txt".to_string(), "snip1".to_string()).unwrap();
    let snippet_tokens = manager.snippet_at(0).token_count;

    manager.clear_history();

    assert_eq!(manager.history_len(), 0);
    assert_eq!(manager.snippets_len(), 1);
    assert_eq!(manager.total_tokens(), snippet_tokens);
}

#[test]
fn test_clear_snippets() {
    let mut manager = create_test_manager();
    manager.add_message(user_message("msg1")).unwrap();
    manager.add_snippet("file.txt".to_string(), "snip1".to_string()).unwrap();
    let message_tokens = manager.history_cost(0);

    manager.clear_snippets();

    assert_eq!(manager.history_len(), 1);
    assert_eq!(manager.snippets_len(), 0);
    assert_eq!(manager.total_tokens(), message_tokens);
}

#[test]
fn mod_test_token_counting() {
    let manager = create_test_manager();
    let tokens = manager.count_tokens("Hello world").unwrap();
    assert!(tokens > 0, "Token count should be positive");
    let tokens_complex = manager.count_tokens("複雑なテキスト").unwrap();
    assert!(tokens_complex > 0, "Token count for complex text should be positive");
}

#[test]
fn mod_test_add_message() {
    let mut manager = create_test_manager();
    let msg = user_message("Test message");
    let initial_tokens = manager.total_tokens();

    manager.add_message(msg).unwrap();

    assert_eq!(manager.history_len(), 1);
    assert_eq!(manager.history_message(0).content, Some("Test message".to_string()));
    assert!(manager.total_tokens() > initial_tokens);
    let expected_tokens = manager.count_tokens("Test message").unwrap();
    assert_eq!(manager.history_cost(0), expected_tokens);
}

#[test]
fn mod_test_basic_eviction_history() {
    let mut manager = create_test_manager_with_limit(20);
    for i in 0..10 {
        manager.add_message(user_message(&format!("Message {}", i))).unwrap();
    }
    assert!(
        manager.total_tokens() <= manager.max_token_limit(),
        "Total tokens should be within limit after eviction"
    );
    assert!(
        manager.history_len() > 0,
        "History should not be empty after eviction (unless limit is tiny)"
    );
    let mut has_last = false;
    let mut has_first = false;
    for i in 0..manager.history_len() {
        let m = manager.history_message(i);
        if m.content == Some("Message 9".to_string()) {
            has_last = true;
        }
        if m.content == Some("Message 0".to_string()) {
            has_first = true;
        }
    }
    assert!(has_last);
    assert!(!has_first);
}
