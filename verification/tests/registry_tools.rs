//! Tests of the tool registry: the built-in set, registration and
//! lookup, and rendered tool definitions.

use opencode::config::Config;
use opencode::registry::{ToolRegistry, ToolSpec};

fn dummy_tool() -> ToolSpec {
    ToolSpec {
        name: "dummy".to_string(),
        description: "A test tool".to_string(),
        parameters: "{\"type\":\"object\"}".to_string(),
    }
}

#[test]
fn test_tool_registry_new() {
    let config = Config::default();
    let registry = ToolRegistry::new(&config);
    assert_eq!(registry.tool_count(), 12);
}

#[test]
fn test_tool_registry_register_and_get() {
    let config = Config::default();
    let mut registry = ToolRegistry::new(&config);
    let tool = dummy_tool();
    let tool_name = tool.name();

    registry.register(tool);

    assert_eq!(registry.tool_count(), 13);
    let retrieved_tool = registry.get_tool(&tool_name);
    assert!(retrieved_tool.is_some());
    assert_eq!(retrieved_tool.unwrap().name(), tool_name);
    assert_eq!(retrieved_tool.unwrap().description(), "A test tool");

    let non_existent_tool = registry.get_tool("non_existent");
    assert!(non_existent_tool.is_none());
}

#[test]
fn test_tool_registry_get_tool_schemas() {
    let config = Config::default();
    let mut registry = ToolRegistry::new(&config);
    registry.register(ToolSpec {
        name: "tool1".to_string(),
        description: "First tool".to_string(),
        parameters: "{\"type\":\"object\",\"properties\":{\"arg1\":{\"type\":\"string\"}}}"
            .to_string(),
    });
    registry.register(ToolSpec {
        name: "tool2".to_string(),
        description: "Second tool".to_string(),
        parameters: "{\"type\":\"object\",\"properties\":{\"arg2\":{\"type\":\"number\"}}}"
            .to_string(),
    });

    let schemas_result = registry.get_tool_definitions();
    assert!(schemas_result.is_ok());
    let schemas = schemas_result.unwrap();

    assert_eq!(schemas.len(), 14);
}

#[test]
fn test_tool_registry_get_tool_schemas_empty() {
    let config = Config::default();
    let registry = ToolRegistry::new(&config);
    let schemas_result = registry.get_tool_definitions();
    assert!(schemas_result.is_ok());
    assert_eq!(schemas_result.unwrap().len(), 12);
}

#[test]
fn registry_replaces_tool_of_same_name() {
    let mut registry = ToolRegistry::empty();
    registry.register(dummy_tool());
    registry.register(ToolSpec {
        name: "dummy".to_string(),
        description: "A replacement".to_string(),
        parameters: "{\"type\":\"object\"}".to_string(),
    });
    assert_eq!(registry.tool_count(), 1);
    assert_eq!(registry.get_tool("dummy").unwrap().description(), "A replacement");
}

#[test]
fn registry_definitions_carry_schemas() {
    let mut registry = ToolRegistry::empty();
    registry.register(dummy_tool());
    let defs = registry.get_tool_definitions().unwrap();
    assert_eq!(defs.len(), 1);
    assert_eq!(defs[0].tool_type, "function");
    assert_eq!(defs[0].function.name, "dummy");
    assert_eq!(defs[0].function.parameters, "{\"type\":\"object\"}");
    let schemas = registry.get_tool_schemas().unwrap();
    assert_eq!(schemas, vec!["{\"type\":\"object\"}".to_string()]);
}
