//! Tests of the configuration merge rules and of user-declared tools.

use opencode::config::{
    default_big_model, default_edit_model, default_model, Config, UserToolConfig,
};
use opencode::registry::ToolRegistry;
use opencode::tools::UserDefinedTool;

#[test]
fn load_prefers_project_over_global_over_default() {
    let mut project = Config::default();
    project.api.default_model = "project-model".to_string();
    let mut global = Config::default();
    global.api.default_model = "global-model".to_string();

    let picked = Config::load(Some(project), Some(global));
    assert_eq!(picked.api.default_model, "project-model");

    let mut global2 = Config::default();
    global2.api.default_model = "global-model".to_string();
    let picked = Config::load(None, Some(global2));
    assert_eq!(picked.api.default_model, "global-model");

    let picked = Config::load(None, None);
    assert_eq!(picked.api.default_model, default_model());
    assert_eq!(picked.api.edit_model, default_edit_model());
    assert_eq!(picked.api.big_model, default_big_model());
    assert!(picked.usertools.is_none());
}

#[test]
fn env_overrides_replace_only_non_empty_values() {
    let mut config = Config::default();
    config.apply_env_overrides(
        Some("big-from-env".to_string()),
        Some(String::new()),
        Some("brave-key".to_string()),
    );
    assert_eq!(config.api.big_model, "big-from-env");
    assert_eq!(config.api.edit_model, default_edit_model());
    assert_eq!(config.brave_search_api_key, Some("brave-key".to_string()));

    config.apply_env_overrides(None, None, None);
    assert_eq!(config.api.big_model, "big-from-env");
    assert_eq!(config.brave_search_api_key, Some("brave-key".to_string()));
}

#[test]
fn user_tool_with_valid_schema_is_accepted() {
    let tool_config = UserToolConfig {
        name: "greeter".to_string(),
        description: "Greets someone".to_string(),
        input_schema:
            "{\"type\":\"object\",\"properties\":{\"who\":{\"type\":\"string\"}},\"required\":[\"who\"]}"
                .to_string(),
        command_template: "echo hello {who}".to_string(),
    };
    let tool = UserDefinedTool::new(&tool_config).unwrap();
    assert_eq!(tool.name(), "greeter");
    assert_eq!(tool.description(), "Greets someone");
    assert_eq!(tool.parameters_schema().unwrap(), tool_config.input_schema);
    assert_eq!(tool.command_template(), "echo hello {who}");
}

#[test]
fn user_tool_with_broken_schema_is_rejected() {
    let bad_json = UserToolConfig {
        name: "broken".to_string(),
        description: "Bad schema".to_string(),
        input_schema: "{ not json".to_string(),
        command_template: "true".to_string(),
    };
    assert!(UserDefinedTool::new(&bad_json).is_err());

    let bad_schema = UserToolConfig {
        name: "broken2".to_string(),
        description: "Bad schema".to_string(),
        input_schema: "{\"type\":\"no-such-type\"}".to_string(),
        command_template: "true".to_string(),
    };
    assert!(UserDefinedTool::new(&bad_schema).is_err());
}

#[test]
fn registry_picks_up_valid_user_tools_and_skips_broken_ones() {
    let mut config = Config::default();
    config.usertools = Some(vec![
        UserToolConfig {
            name: "greeter".to_string(),
            description: "Greets someone".to_string(),
            input_schema: "{\"type\":\"object\"}".to_string(),
            command_template: "echo hi".to_string(),
        },
        UserToolConfig {
            name: "broken".to_string(),
            description: "Bad schema".to_string(),
            input_schema: "{ not json".to_string(),
            command_template: "true".to_string(),
        },
    ]);
    let registry = ToolRegistry::new(&config);
    assert_eq!(registry.tool_count(), 13);
    assert!(registry.get_tool("greeter").is_some());
    assert!(registry.get_tool("broken").is_none());
}
