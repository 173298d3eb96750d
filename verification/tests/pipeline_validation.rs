//! Tests of the tool invocation pipeline: argument parsing, registry
//! lookup, and schema validation, with their distinct errors.

use opencode::models::{
    ChatCompletionResponse, Choice, Message, Role, ToolCall, ToolCallFunction, ValidatedToolCall,
};
use opencode::pipeline::parse_and_validate_tool_calls;
use opencode::registry::{ToolRegistry, ToolSpec};
use opencode::tools::ToolError;

fn create_mock_tool_registry() -> ToolRegistry {
    let mut registry = ToolRegistry::empty();
    let schema = "{\"type\":\"object\",\"properties\":{\"param1\":{\"type\":\"string\"},\"param2\":{\"type\":\"integer\"}},\"required\":[\"param1\"]}";
    registry.register(ToolSpec {
        name: "mock_tool".to_string(),
        description: "Mock tool description".to_string(),
        parameters: schema.to_string(),
    });
    registry
}

fn create_mock_response(
    finish_reason: Option<&str>,
    tool_calls: Option<Vec<ToolCall>>,
) -> ChatCompletionResponse {
    ChatCompletionResponse {
        id: "chatcmpl-123".to_string(),
        object: "chat.completion".to_string(),
        created: 1677652288,
        model: "gpt-4".to_string(),
        choices: vec![Choice {
            index: 0,
            message: Message {
                role: Role::Assistant,
                content: None,
                tool_calls,
                tool_call_id: None,
            },
            finish_reason: finish_reason.map(String::from),
        }],
        usage: None,
        stop_reason: None,
    }
}

#[test]
fn test_parse_validate_successful() {
    let registry = create_mock_tool_registry();
    let tool_calls = vec![ToolCall {
        id: "call_123".to_string(),
        tool_type: "function".to_string(),
        function: ToolCallFunction {
            name: "mock_tool".to_string(),
            arguments: "{\"param1\":\"value1\",\"param2\":100}".to_string(),
        },
    }];
    let response = create_mock_response(Some("tool_calls"), Some(tool_calls));

    let result = parse_and_validate_tool_calls(&response, &registry);
    assert!(result.is_ok());
    let validated = result.unwrap();
    assert_eq!(validated.len(), 1);
    assert_eq!(
        validated[0],
        ValidatedToolCall {
            id: "call_123".to_string(),
            name: "mock_tool".to_string(),
            arguments: "{\"param1\":\"value1\",\"param2\":100}".to_string(),
        }
    );
}

#[test]
fn test_parse_validate_no_tool_calls_finish_reason() {
    let registry = create_mock_tool_registry();
    let response = create_mock_response(Some("stop"), None);
    let result = parse_and_validate_tool_calls(&response, &registry);
    assert!(result.is_ok());
    assert!(result.unwrap().is_empty());
}

#[test]
fn test_parse_validate_no_tool_calls_in_message() {
    let registry = create_mock_tool_registry();
    let response = create_mock_response(Some("tool_calls"), None);
    let result = parse_and_validate_tool_calls(&response, &registry);
    assert!(result.is_ok());
    assert!(result.unwrap().is_empty());
}

#[test]
fn test_parse_validate_invalid_json_arguments() {
    let registry = create_mock_tool_registry();
    let tool_calls = vec![ToolCall {
        id: "call_err".to_string(),
        tool_type: "function".to_string(),
        function: ToolCallFunction {
            name: "mock_tool".to_string(),
            arguments: "{ invalid json ".to_string(),
        },
    }];
    let response = create_mock_response(Some("tool_calls"), Some(tool_calls));

    let result = parse_and_validate_tool_calls(&response, &registry);
    assert!(result.is_err());
    match result.err().unwrap() {
        ToolError::InvalidArguments { tool_name, details } => {
            assert_eq!(tool_name, "mock_tool");
            assert!(details.contains("Failed to parse JSON arguments"));
        }
        _ => panic!("Expected InvalidArguments error"),
    }
}

#[test]
fn test_parse_validate_schema_validation_failed_missing_required() {
    let registry = create_mock_tool_registry();
    let tool_calls = vec![ToolCall {
        id: "call_val_err".to_string(),
        tool_type: "function".to_string(),
        function: ToolCallFunction {
            name: "mock_tool".to_string(),
            arguments: "{\"param2\":123}".to_string(),
        },
    }];
    let response = create_mock_response(Some("tool_calls"), Some(tool_calls));

    let result = parse_and_validate_tool_calls(&response, &registry);
    assert!(result.is_err());
    match result.err().unwrap() {
        ToolError::InvalidArguments { tool_name, details } => {
            assert_eq!(tool_name, "mock_tool");
            assert!(details.contains("Schema validation failed"));
            assert!(details.contains("'param1' is a required property"));
        }
        _ => panic!("Expected InvalidArguments error"),
    }
}

#[test]
fn test_parse_validate_schema_validation_failed_wrong_type() {
    let registry = create_mock_tool_registry();
    let tool_calls = vec![ToolCall {
        id: "call_type_err".to_string(),
        tool_type: "function".to_string(),
        function: ToolCallFunction {
            name: "mock_tool".to_string(),
            arguments: "{\"param1\":123}".to_string(),
        },
    }];
    let response = create_mock_response(Some("tool_calls"), Some(tool_calls));

    let result = parse_and_validate_tool_calls(&response, &registry);
    assert!(result.is_err());
    match result.err().unwrap() {
        ToolError::InvalidArguments { tool_name, details } => {
            assert_eq!(tool_name, "mock_tool");
            assert!(details.contains("Schema validation failed"));
            assert!(details.contains("123 is not of type 'string'"));
        }
        _ => panic!("Expected InvalidArguments error"),
    }
}

#[test]
fn test_parse_validate_tool_not_found() {
    let registry = ToolRegistry::empty();
    let tool_calls = vec![ToolCall {
        id: "call_notfound".to_string(),
        tool_type: "function".to_string(),
        function: ToolCallFunction {
            name: "unknown_tool".to_string(),
            arguments: "{}".to_string(),
        },
    }];
    let response = create_mock_response(Some("tool_calls"), Some(tool_calls));

    let result = parse_and_validate_tool_calls(&response, &registry);
    assert!(result.is_err());
    match result.err().unwrap() {
        ToolError::Other { message } => {
            assert!(message.contains("Tool 'unknown_tool' requested by model not found"));
        }
        _ => panic!("Expected Other error for tool not found"),
    }
}

#[test]
fn validation_details_join_every_violation() {
    let mut registry = ToolRegistry::empty();
    registry.register(ToolSpec {
        name: "strict_tool".to_string(),
        description: "Requires two properties".to_string(),
        parameters: "{\"type\":\"object\",\"properties\":{\"a\":{\"type\":\"string\"},\"b\":{\"type\":\"string\"}},\"required\":[\"a\",\"b\"]}"
            .to_string(),
    });
    let tool_calls = vec![ToolCall {
        id: "call_two".to_string(),
        tool_type: "function".to_string(),
        function: ToolCallFunction {
            name: "strict_tool".to_string(),
            arguments: "{}".to_string(),
        },
    }];
    let response = create_mock_response(Some("tool_calls"), Some(tool_calls));
    let result = parse_and_validate_tool_calls(&response, &registry);
    match result.err().unwrap() {
        ToolError::InvalidArguments { details, .. } => {
            assert!(details.contains("'a' is a required property"));
            assert!(details.contains("'b' is a required property"));
            assert!(details.contains("; "), "violations are joined with '; '");
        }
        _ => panic!("Expected InvalidArguments error"),
    }
}
