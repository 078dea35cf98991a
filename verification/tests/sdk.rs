use alith_engine::sdk::{AgentRegistry, DelegateAgent, GoTool, LlmSource, RegistryError};

fn agent(name: &str, base_url: &str) -> DelegateAgent {
    DelegateAgent::new(
        name.to_string(),
        "gpt-4".to_string(),
        "sk-1".to_string(),
        base_url.to_string(),
        String::new(),
        Vec::new(),
        String::new(),
    )
}

fn tool(name: &str) -> GoTool {
    GoTool {
        name: name.to_string(),
        description: "adds".to_string(),
        parameters: "{\"type\": \"object\"}".to_string(),
        tool_id: 7,
    }
}

#[test]
fn agent_reaches_its_model_by_name_or_at_an_address() {
    let plain = agent("a", "");
    assert_eq!(plain.name, "a");
    assert_eq!(plain.model, "gpt-4");
    assert_eq!(plain.llm_source(), LlmSource::ModelName("gpt-4".to_string()));
    assert!(!plain.has_preamble());
    assert!(!plain.has_mcp_config());
    let mut hosted = agent("b", "http://localhost:8080/v1");
    hosted.preamble = "Be brief.".to_string();
    hosted.mcp_config_path = "mcp.json".to_string();
    assert_eq!(
        hosted.llm_source(),
        LlmSource::OpenAICompatible {
            api_key: "sk-1".to_string(),
            base_url: "http://localhost:8080/v1".to_string(),
            model: "gpt-4".to_string(),
        }
    );
    assert!(hosted.has_preamble());
    assert!(hosted.has_mcp_config());
}

#[test]
fn tool_describes_itself() {
    let tool = tool("sum");
    assert_eq!(tool.name(), "sum");
    assert_eq!(tool.description(), "adds");
    assert_eq!(tool.version(), "1.0.0");
    assert_eq!(tool.author(), "Go");
    let definition = tool.definition();
    assert_eq!(definition.name, "sum");
    assert_eq!(definition.description, "adds");
    assert_eq!(definition.parameters, "{\"type\": \"object\"}");
}

#[test]
fn agents_are_numbered_from_one() {
    let mut registry = AgentRegistry::new();
    assert_eq!(registry.create_agent(agent("a", "")), Ok("agent_1".to_string()));
    assert_eq!(registry.create_agent(agent("b", "")), Ok("agent_2".to_string()));
    assert_eq!(registry.counter, 2);
    assert_eq!(registry.position("agent_2"), Some(1));
    assert_eq!(registry.position("agent_3"), None);
    assert_eq!(registry.agent("agent_1").unwrap().name, "a");
    assert_eq!(registry.agent("agent_2").unwrap().name, "b");
    assert_eq!(registry.agent("agent_0"), Err(RegistryError::AgentNotFound));
    assert_eq!(registry.agent(""), Err(RegistryError::AgentNotFound));
}

#[test]
fn registry_runs_out_of_ids() {
    let mut registry = AgentRegistry::new();
    registry.counter = u64::MAX - 1;
    assert_eq!(
        registry.create_agent(agent("a", "")),
        Ok("agent_18446744073709551615".to_string())
    );
    assert_eq!(registry.create_agent(agent("b", "")), Err(RegistryError::Exhausted));
    assert_eq!(registry.agents.len(), 1);
    assert_eq!(RegistryError::Exhausted.message(), "ERROR: No agent id left");
}

#[test]
fn tools_are_given_to_the_agent_with_the_id() {
    let mut registry = AgentRegistry::new();
    registry.create_agent(agent("a", "")).unwrap();
    registry.create_agent(agent("b", "")).unwrap();
    assert_eq!(registry.add_tool_to_agent("agent_2", tool("sum")), Ok(()));
    assert_eq!(registry.add_tool_to_agent("agent_2", tool("mul")), Ok(()));
    assert_eq!(
        registry.add_tool_to_agent("agent_9", tool("sum")),
        Err(RegistryError::AgentNotFound)
    );
    assert!(registry.agent("agent_1").unwrap().tools.is_empty());
    assert_eq!(registry.agent("agent_2").unwrap().tools, vec![tool("sum"), tool("mul")]);
    assert_eq!(registry.agent("agent_2").unwrap().name, "b");
    assert_eq!(RegistryError::AgentNotFound.message(), "ERROR: Agent not found");
}
