//! What the language bindings keep: the description of an agent, and the
//! registry that hands agents out by id.

use vstd::prelude::*;
use vstd::string::*;
use crate::requests::components::ToolDefinition;
use crate::text::{decimal, decimal_text};

verus! {

/// A tool whose work is done on the other side of a binding.
#[derive(Debug, Clone, PartialEq, Eq)]
pub struct GoTool {
    pub name: String,
    pub description: String,
    /// The JSON schema of the tool's arguments, as text.
    pub parameters: String,
    /// The handle by which the other side finds the tool.
    pub tool_id: u64,
}

impl GoTool {
    /// The tool's name.
    pub fn name(&self) -> (name: &str)
        ensures
            name@ == self.name@,
    {
        self.name.as_str()
    }

    /// What the tool does.
    pub fn description(&self) -> (description: &str)
        ensures
            description@ == self.description@,
    {
        self.description.as_str()
    }

    /// The tool's version.
    pub fn version(&self) -> (version: &'static str)
        ensures
            version@ == "1.0.0"@,
    {
        "1.0.0"
    }

    /// The tool's author.
    pub fn author(&self) -> (author: &'static str)
        ensures
            author@ == "Go"@,
    {
        "Go"
    }

    /// The tool as a request describes it to the model.
    pub fn definition(&self) -> (definition: ToolDefinition)
        ensures
            definition.name@ == self.name@,
            definition.description@ == self.description@,
            definition.parameters@ == self.parameters@,
    {
        ToolDefinition {
            name: self.name.clone(),
            description: self.description.clone(),
            parameters: self.parameters.clone(),
        }
    }
}

/// How the model of an agent is reached.
#[derive(Debug, Clone, PartialEq, Eq)]
pub enum LlmSource {
    /// The provider is told from the model's name.
    ModelName(String),
    /// An API that speaks the OpenAI protocol at this address.
    OpenAICompatible { api_key: String, base_url: String, model: String },
}

/// An agent as a binding describes it.
#[derive(Debug, Clone, PartialEq, Eq)]
pub struct DelegateAgent {
    pub model: String,
    pub name: String,
    pub api_key: String,
    pub base_url: String,
    pub preamble: String,
    pub tools: Vec<GoTool>,
    pub mcp_config_path: String,
}

/// How the model of an agent with these settings is reached: by its name
/// where no address is given, else at the address.
pub open spec fn source_of(model: Seq<char>, api_key: Seq<char>, base_url: Seq<char>) -> (
    bool,
    Seq<char>,
    Seq<char>,
    Seq<char>,
) {
    if base_url.len() == 0 {
        (false, Seq::empty(), Seq::empty(), model)
    } else {
        (true, api_key, base_url, model)
    }
}

/// The parts of a source: whether it is an address, and key, address and model.
pub open spec fn source_view(source: LlmSource) -> (bool, Seq<char>, Seq<char>, Seq<char>) {
    match source {
        LlmSource::ModelName(model) => (false, Seq::empty(), Seq::empty(), model@),
        LlmSource::OpenAICompatible { api_key, base_url, model } => (
            true,
            api_key@,
            base_url@,
            model@,
        ),
    }
}

impl DelegateAgent {
    /// An agent with the settings given.
    pub fn new(
        name: String,
        model: String,
        api_key: String,
        base_url: String,
        preamble: String,
        tools: Vec<GoTool>,
        mcp_config_path: String,
    ) -> (agent: DelegateAgent)
        ensures
            agent == (DelegateAgent {
                model,
                name,
                api_key,
                base_url,
                preamble,
                tools,
                mcp_config_path,
            }),
    {
        DelegateAgent { model, name, api_key, base_url, preamble, tools, mcp_config_path }
    }

    /// How the agent's model is reached.
    pub fn llm_source(&self) -> (source: LlmSource)
        ensures
            source_view(source) == source_of(self.model@, self.api_key@, self.base_url@),
    {
        if self.base_url.as_str().is_empty() {
            LlmSource::ModelName(self.model.clone())
        } else {
            LlmSource::OpenAICompatible {
                api_key: self.api_key.clone(),
                base_url: self.base_url.clone(),
                model: self.model.clone(),
            }
        }
    }

    /// Whether the agent is given a preamble.
    pub fn has_preamble(&self) -> (given: bool)
        ensures
            given == (self.preamble@.len() > 0),
    {
        !self.preamble.as_str().is_empty()
    }

    /// Whether the agent is given the configuration of tool servers.
    pub fn has_mcp_config(&self) -> (given: bool)
        ensures
            given == (self.mcp_config_path@.len() > 0),
    {
        !self.mcp_config_path.as_str().is_empty()
    }
}

/// Why the registry refused.
#[derive(Debug, Clone, Copy, PartialEq, Eq, Structural)]
pub enum RegistryError {
    /// No agent has the id.
    AgentNotFound,
    /// Every id has been handed out.
    Exhausted,
}

impl RegistryError {
    /// The text that `message` renders.
    pub open spec fn message_text(&self) -> Seq<char> {
        match self {
            RegistryError::AgentNotFound => "ERROR: Agent not found"@,
            RegistryError::Exhausted => "ERROR: No agent id left"@,
        }
    }

    /// The answer that goes back over the binding.
    pub fn message(&self) -> (line: String)
        ensures
            line@ == self.message_text(),
    {
        match self {
            RegistryError::AgentNotFound => "ERROR: Agent not found".to_owned(),
            RegistryError::Exhausted => "ERROR: No agent id left".to_owned(),
        }
    }
}

/// The id of the agent that is created as number `count`.
pub open spec fn agent_id(count: nat) -> Seq<char> {
    "agent_"@ + decimal_text(count)
}

/// The agents that were created, each under its id.
#[derive(Debug, Clone, PartialEq, Eq)]
pub struct AgentRegistry {
    /// The agents in the order of their creation, each with its id.
    pub agents: Vec<(String, DelegateAgent)>,
    /// The number of agents created so far.
    pub counter: u64,
}

impl AgentRegistry {
    /// Whether an agent has the id.
    pub open spec fn holds(&self, id: Seq<char>) -> bool {
        exists|i: int| 0 <= i < self.agents@.len() && (#[trigger] self.agents@[i]).0@ == id
    }

    /// The position of the first agent with the id, or the number of agents.
    pub open spec fn place(&self, id: Seq<char>) -> int {
        place_in(self.agents@, id)
    }

    /// A registry without agents.
    pub fn new() -> (registry: AgentRegistry)
        ensures
            registry.agents@.len() == 0,
            registry.counter == 0,
    {
        AgentRegistry { agents: Vec::new(), counter: 0 }
    }

    /// Registers an agent and hands back its id: `agent_` and the number
    /// of its creation, counted from one.
    pub fn create_agent(&mut self, agent: DelegateAgent) -> (id: Result<String, RegistryError>)
        ensures
            old(self).counter == u64::MAX ==> id == Err::<String, RegistryError>(
                RegistryError::Exhausted,
            ) && *final(self) == *old(self),
            old(self).counter < u64::MAX ==> {
                &&& id matches Ok(text) && text@ == agent_id((old(self).counter + 1) as nat)
                &&& final(self).counter == old(self).counter + 1
                &&& final(self).agents@.len() == old(self).agents@.len() + 1
                &&& final(self).agents@.drop_last() == old(self).agents@
                &&& final(self).agents@.last().0@ == agent_id(final(self).counter as nat)
                &&& final(self).agents@.last().1 == agent
            },
    {
        if self.counter == u64::MAX {
            return Err(RegistryError::Exhausted);
        }
        self.counter = self.counter + 1;
        let number = decimal(self.counter);
        let id = "agent_".to_owned().concat(number.as_str());
        self.agents.push((id.clone(), agent));
        assert(self.agents@.drop_last() =~= old(self).agents@);
        Ok(id)
    }

    /// The position of the first agent with the id.
    pub fn position(&self, id: &str) -> (found: Option<usize>)
        ensures
            match found {
                Some(i) => i == self.place(id@) && i < self.agents@.len(),
                None => self.place(id@) == self.agents@.len() && !self.holds(id@),
            },
            self.place(id@) < self.agents@.len() ==> self.holds(id@) && self.agents@[self.place(
                id@,
            )].0@ == id@,
    {
        let wanted = id.to_owned();
        let mut i: usize = 0;
        assert(self.agents@.skip(0) =~= self.agents@);
        while i < self.agents.len()
            invariant
                i <= self.agents.len(),
                wanted@ == id@,
                place_in(self.agents@, id@) == i + place_in(self.agents@.skip(i as int), id@),
                forall|j: int| 0 <= j < i ==> (#[trigger] self.agents@[j]).0@ != id@,
            decreases self.agents.len() - i,
        {
            assert(self.agents@.skip(i as int)[0] == self.agents@[i as int]);
            if self.agents[i].0 == wanted {
                return Some(i);
            }
            assert(self.agents@.skip(i as int).skip(1) =~= self.agents@.skip(i + 1));
            i += 1;
        }
        None
    }

    /// Gives a tool to the first agent with the id.
    pub fn add_tool_to_agent(&mut self, id: &str, tool: GoTool) -> (result: Result<
        (),
        RegistryError,
    >)
        ensures
            !old(self).holds(id@) ==> result == Err::<(), RegistryError>(
                RegistryError::AgentNotFound,
            ) && *final(self) == *old(self),
            old(self).holds(id@) ==> {
                let i = old(self).place(id@);
                &&& result is Ok
                &&& final(self).counter == old(self).counter
                &&& 0 <= i < old(self).agents@.len()
                &&& final(self).agents@ == old(self).agents@.update(i, final(self).agents@[i])
                &&& final(self).agents@[i].0 == old(self).agents@[i].0
                &&& final(self).agents@[i].1 == (DelegateAgent {
                    tools: final(self).agents@[i].1.tools,
                    ..old(self).agents@[i].1
                })
                &&& final(self).agents@[i].1.tools@ == old(self).agents@[i].1.tools@.push(tool)
            },
    {
        match self.position(id) {
            None => Err(RegistryError::AgentNotFound),
            Some(i) => {
                self.agents[i].1.tools.push(tool);
                assert(self.agents@ =~= old(self).agents@.update(i as int, self.agents@[i as int]));
                Ok(())
            },
        }
    }

    /// The first agent with the id.
    pub fn agent(&self, id: &str) -> (found: Result<&DelegateAgent, RegistryError>)
        ensures
            !self.holds(id@) ==> found == Err::<&DelegateAgent, RegistryError>(
                RegistryError::AgentNotFound,
            ),
            self.holds(id@) ==> (found matches Ok(agent) && 0 <= self.place(id@)
                < self.agents@.len() && *agent == self.agents@[self.place(id@)].1),
    {
        match self.position(id) {
            None => Err(RegistryError::AgentNotFound),
            Some(i) => Ok(&self.agents[i].1),
        }
    }
}

/// The position of the first entry with the id, or the number of entries.
pub open spec fn place_in(agents: Seq<(String, DelegateAgent)>, id: Seq<char>) -> int
    decreases agents.len(),
{
    if agents.len() > 0 && agents[0].0@ != id {
        1 + place_in(agents.skip(1), id)
    } else {
        0
    }
}

} // verus!
