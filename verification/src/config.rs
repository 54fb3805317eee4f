//! The configuration of agents and workflows, and the check that it is
//! sound.

use vstd::prelude::*;
use vstd::string::StringExecFns;
use std::path::PathBuf;
use serde_json::Value;
use crate::named_map::NamedMap;
use crate::outside::path_display;
use crate::outside::path_shown;
use crate::text::same_text;

verus! {

/// The configuration of one agent.
#[derive(Debug, Clone)]
pub struct AgentConfig {
    pub name: String,
    pub version: String,
    pub description: String,
    pub enabled: bool,
    pub settings: NamedMap<Value>,
    pub dependencies: Vec<String>,
}

/// The configuration of one workflow.
#[derive(Debug, Clone)]
pub struct WorkflowConfig {
    pub name: String,
    pub version: String,
    pub description: String,
    pub enabled: bool,
    pub triggers: Vec<WorkflowTriggerConfig>,
    pub steps: Vec<WorkflowStepConfig>,
    pub variables: NamedMap<WorkflowVariableConfig>,
}

/// What starts a configured workflow.
#[derive(Debug, Clone)]
pub struct WorkflowTriggerConfig {
    pub kind: String,
    pub config: NamedMap<Value>,
}

/// One step of a configured workflow.
#[derive(Debug, Clone)]
pub struct WorkflowStepConfig {
    pub name: String,
    pub agent: String,
    pub input: NamedMap<Value>,
    pub dependencies: Vec<String>,
    pub timeout_seconds: u64,
    pub retry_policy: RetryPolicyConfig,
}

/// The retry policy of a configured step.
#[derive(Debug, Clone)]
pub struct RetryPolicyConfig {
    pub max_attempts: u32,
    pub backoff_strategy: String,
    pub max_delay_seconds: u64,
}

impl Default for RetryPolicyConfig {
    /// Three attempts, with exponential backoff of at most a minute.
    fn default() -> (policy: Self)
        ensures
            policy.max_attempts == 3,
            policy.backoff_strategy@ == "exponential"@,
            policy.max_delay_seconds == 60,
    {
        RetryPolicyConfig {
            max_attempts: 3,
            backoff_strategy: "exponential".to_owned(),
            max_delay_seconds: 60,
        }
    }
}

/// A variable of a configured workflow.
#[derive(Debug, Clone)]
pub struct WorkflowVariableConfig {
    pub name: String,
    pub kind: String,
    pub required: bool,
    pub default_value: Option<Value>,
}

/// The whole configuration: agents and workflows, each under a key.
#[derive(Debug, Clone)]
pub struct GlobalConfig {
    pub version: String,
    pub agents: NamedMap<AgentConfig>,
    pub workflows: NamedMap<WorkflowConfig>,
    pub global_settings: NamedMap<Value>,
}

impl Default for GlobalConfig {
    /// The version `1.0.0`, without agents, workflows and settings.
    fn default() -> (config: Self)
        ensures
            config.version@ == "1.0.0"@,
            config.agents.names().len() == 0,
            config.workflows.names().len() == 0,
            config.global_settings.names().len() == 0,
    {
        GlobalConfig {
            version: "1.0.0".to_owned(),
            agents: NamedMap::new(),
            workflows: NamedMap::new(),
            global_settings: NamedMap::new(),
        }
    }
}

/// Why a configuration could not be read, written or accepted.
#[derive(Debug, Clone)]
pub enum ConfigError {
    FileNotFound(PathBuf),
    ParseError(String),
    ValidationError(String),
    IoError(String),
    SerializationError(String),
}

impl ConfigError {
    /// The error as it is shown to a reader.
    pub open spec fn message_text(self) -> Seq<char> {
        match self {
            ConfigError::FileNotFound(p) => "File not found: "@ + path_shown(p),
            ConfigError::ParseError(m) => "Parse error: "@ + m@,
            ConfigError::ValidationError(m) => "Validation error: "@ + m@,
            ConfigError::IoError(m) => "IO error: "@ + m@,
            ConfigError::SerializationError(m) => "Serialization error: "@ + m@,
        }
    }

    /// The error as it is shown to a reader.
    pub fn message(&self) -> (text: String)
        ensures
            text@ == self.message_text(),
    {
        match self {
            ConfigError::FileNotFound(p) => "File not found: ".to_owned().concat(
                path_display(p).as_str(),
            ),
            ConfigError::ParseError(m) => "Parse error: ".to_owned().concat(m.as_str()),
            ConfigError::ValidationError(m) => "Validation error: ".to_owned().concat(m.as_str()),
            ConfigError::IoError(m) => "IO error: ".to_owned().concat(m.as_str()),
            ConfigError::SerializationError(m) => "Serialization error: ".to_owned().concat(
                m.as_str(),
            ),
        }
    }
}

/// What is wrong with a configuration.
#[derive(Debug, Clone, Copy, PartialEq, Eq, Structural)]
pub enum ConfigFault {
    /// The agent at this position has no name.
    AgentWithoutName { agent: usize },
    /// The agent at this position has no version.
    AgentWithoutVersion { agent: usize },
    /// The workflow at this position has no name.
    WorkflowWithoutName { workflow: usize },
    /// The workflow at this position has no steps.
    WorkflowWithoutSteps { workflow: usize },
    /// In the workflow at this position, this dependency of this step names
    /// no step.
    UnknownDependency { workflow: usize, step: usize, dependency: usize },
}

/// The fault of the agent at a position, if it has one: its name is
/// missing, else its version.
pub open spec fn agent_fault(config: &GlobalConfig, i: int) -> Option<ConfigFault> {
    let agent = config.agents.values()[i];
    if agent.name@.len() == 0 {
        Some(ConfigFault::AgentWithoutName { agent: i as usize })
    } else if agent.version@.len() == 0 {
        Some(ConfigFault::AgentWithoutVersion { agent: i as usize })
    } else {
        None
    }
}

/// Whether a step of a workflow has that name.
pub open spec fn has_step(workflow: WorkflowConfig, name: Seq<char>) -> bool {
    exists|j: int| 0 <= j < workflow.steps@.len() && (#[trigger] workflow.steps@[j]).name@ == name
}

/// Whether the dependency at `(step, dependency)` of a workflow names no
/// step, and all before it name one.
pub open spec fn is_first_unknown_dependency(
    workflow: WorkflowConfig,
    step: int,
    dependency: int,
) -> bool {
    &&& 0 <= step < workflow.steps@.len()
    &&& 0 <= dependency < workflow.steps@[step].dependencies@.len()
    &&& !has_step(workflow, workflow.steps@[step].dependencies@[dependency]@)
    &&& forall|a: int, b: int|
        0 <= a < workflow.steps@.len() && 0 <= b < workflow.steps@[a].dependencies@.len() && (a
            < step || (a == step && b < dependency)) ==> has_step(
            workflow,
            (#[trigger] workflow.steps@[a].dependencies@[b])@,
        )
}

/// Every dependency of every step of a workflow names a step.
pub open spec fn dependencies_known(workflow: WorkflowConfig) -> bool {
    forall|a: int, b: int|
        0 <= a < workflow.steps@.len() && 0 <= b < workflow.steps@[a].dependencies@.len()
            ==> has_step(workflow, (#[trigger] workflow.steps@[a].dependencies@[b])@)
}

/// Whether a fault is the fault of the workflow at position `i`: its name
/// is missing, else its steps, else the first dependency that names no
/// step.
pub open spec fn is_workflow_fault(config: &GlobalConfig, i: int, fault: ConfigFault) -> bool {
    let workflow = config.workflows.values()[i];
    match fault {
        ConfigFault::WorkflowWithoutName { workflow: w } => w == i && workflow.name@.len() == 0,
        ConfigFault::WorkflowWithoutSteps { workflow: w } => w == i && workflow.name@.len() > 0
            && workflow.steps@.len() == 0,
        ConfigFault::UnknownDependency { workflow: w, step, dependency } => w == i
            && workflow.name@.len() > 0 && workflow.steps@.len() > 0
            && is_first_unknown_dependency(workflow, step as int, dependency as int),
        _ => false,
    }
}

/// The workflow at position `i` has no fault.
pub open spec fn workflow_sound(config: &GlobalConfig, i: int) -> bool {
    let workflow = config.workflows.values()[i];
    workflow.name@.len() > 0 && workflow.steps@.len() > 0 && dependencies_known(workflow)
}

/// The configuration has no fault.
pub open spec fn config_sound(config: &GlobalConfig) -> bool {
    &&& forall|i: int| 0 <= i < config.agents.values().len() ==> agent_fault(config, i) is None
    &&& forall|i: int| 0 <= i < config.workflows.values().len() ==> workflow_sound(config, i)
}

/// Whether a fault is the first of a configuration: the agents are looked
/// at first and then the workflows, each in the order of the
/// configuration.
pub open spec fn is_first_fault(config: &GlobalConfig, fault: ConfigFault) -> bool {
    match fault {
        ConfigFault::AgentWithoutName { agent } | ConfigFault::AgentWithoutVersion { agent } => {
            &&& agent < config.agents.values().len()
            &&& agent_fault(config, agent as int) == Some(fault)
            &&& forall|i: int| 0 <= i < agent ==> agent_fault(config, i) is None
        },
        ConfigFault::WorkflowWithoutName { workflow }
        | ConfigFault::WorkflowWithoutSteps { workflow }
        | ConfigFault::UnknownDependency { workflow, .. } => {
            &&& forall|i: int|
                0 <= i < config.agents.values().len() ==> agent_fault(config, i) is None
            &&& workflow < config.workflows.values().len()
            &&& is_workflow_fault(config, workflow as int, fault)
            &&& forall|i: int| 0 <= i < workflow ==> workflow_sound(config, i)
        },
    }
}

/// The text that reports a fault.
pub open spec fn fault_message(config: &GlobalConfig, fault: ConfigFault) -> Seq<char> {
    match fault {
        ConfigFault::AgentWithoutName { agent } => "Agent name cannot be empty: "@
            + config.agents.names()[agent as int],
        ConfigFault::AgentWithoutVersion { agent } => "Agent version cannot be empty: "@
            + config.agents.names()[agent as int],
        ConfigFault::WorkflowWithoutName { workflow } => "Workflow name cannot be empty: "@
            + config.workflows.names()[workflow as int],
        ConfigFault::WorkflowWithoutSteps { workflow } => "Workflow must have at least one step: "@
            + config.workflows.names()[workflow as int],
        ConfigFault::UnknownDependency { workflow, step, dependency } => "Invalid dependency '"@
            + config.workflows.values()[workflow as int].steps@[step as int].dependencies@[dependency as int]@
            + "' in step '"@ + config.workflows.values()[workflow as int].steps@[step as int].name@
            + "' of workflow '"@ + config.workflows.names()[workflow as int]
            + "': step not found"@,
    }
}

/// Whether a step of the workflow has that name.
fn workflow_has_step(workflow: &WorkflowConfig, name: &str) -> (b: bool)
    ensures
        b == has_step(*workflow, name@),
{
    let mut j: usize = 0;
    while j < workflow.steps.len()
        invariant
            j <= workflow.steps@.len(),
            forall|k: int| 0 <= k < j ==> (#[trigger] workflow.steps@[k]).name@ != name@,
        decreases workflow.steps@.len() - j,
    {
        if same_text(workflow.steps[j].name.as_str(), name) {
            return true;
        }
        j = j + 1;
    }
    false
}

/// The first dependency of a workflow that names no step.
fn find_unknown_dependency(workflow: &WorkflowConfig) -> (r: Option<(usize, usize)>)
    ensures
        match r {
            Some((step, dependency)) => is_first_unknown_dependency(
                *workflow,
                step as int,
                dependency as int,
            ),
            None => dependencies_known(*workflow),
        },
{
    let n = workflow.steps.len();
    let mut a: usize = 0;
    while a < n
        invariant
            n == workflow.steps@.len(),
            a <= n,
            forall|x: int, y: int|
                0 <= x < a && 0 <= y < workflow.steps@[x].dependencies@.len() ==> has_step(
                    *workflow,
                    (#[trigger] workflow.steps@[x].dependencies@[y])@,
                ),
        decreases n - a,
    {
        let m = workflow.steps[a].dependencies.len();
        let mut b: usize = 0;
        while b < m
            invariant
                n == workflow.steps@.len(),
                a < n,
                m == workflow.steps@[a as int].dependencies@.len(),
                b <= m,
                forall|x: int, y: int|
                    0 <= x < a && 0 <= y < workflow.steps@[x].dependencies@.len() ==> has_step(
                        *workflow,
                        (#[trigger] workflow.steps@[x].dependencies@[y])@,
                    ),
                forall|y: int|
                    0 <= y < b ==> has_step(
                        *workflow,
                        (#[trigger] workflow.steps@[a as int].dependencies@[y])@,
                    ),
            decreases m - b,
        {
            if !workflow_has_step(workflow, workflow.steps[a].dependencies[b].as_str()) {
                return Some((a, b));
            }
            b = b + 1;
        }
        a = a + 1;
    }
    None
}

/// Looks for the first fault of a configuration.
pub fn find_config_fault(config: &GlobalConfig) -> (r: Option<ConfigFault>)
    ensures
        match r {
            Some(fault) => is_first_fault(config, fault),
            None => config_sound(config),
        },
{
    let agents = config.agents.len();
    let mut i: usize = 0;
    while i < agents
        invariant
            agents == config.agents.values().len(),
            i <= agents,
            forall|k: int| 0 <= k < i ==> agent_fault(config, k) is None,
        decreases agents - i,
    {
        let agent = config.agents.value_at(i);
        if agent.name.as_str().is_empty() {
            return Some(ConfigFault::AgentWithoutName { agent: i });
        }
        if agent.version.as_str().is_empty() {
            return Some(ConfigFault::AgentWithoutVersion { agent: i });
        }
        i = i + 1;
    }
    let workflows = config.workflows.len();
    let mut w: usize = 0;
    while w < workflows
        invariant
            workflows == config.workflows.values().len(),
            w <= workflows,
            forall|k: int| 0 <= k < config.agents.values().len() ==> agent_fault(config, k) is None,
            forall|k: int| 0 <= k < w ==> workflow_sound(config, k),
        decreases workflows - w,
    {
        let workflow = config.workflows.value_at(w);
        if workflow.name.as_str().is_empty() {
            return Some(ConfigFault::WorkflowWithoutName { workflow: w });
        }
        if workflow.steps.len() == 0 {
            return Some(ConfigFault::WorkflowWithoutSteps { workflow: w });
        }
        match find_unknown_dependency(workflow) {
            Some((step, dependency)) => {
                return Some(ConfigFault::UnknownDependency { workflow: w, step, dependency });
            },
            None => {},
        }
        w = w + 1;
    }
    None
}

/// Checks a configuration: every agent has a name and a version, and
/// every workflow a name, at least one step, and only dependencies that
/// name one of its steps. The error reports the first fault and the key
/// under which the agent or the workflow stands.
pub fn validate_config(config: &GlobalConfig) -> (r: Result<(), ConfigError>)
    ensures
        r is Ok <==> config_sound(config),
        r matches Err(e) ==> exists|fault: ConfigFault|
            is_first_fault(config, fault) && (e matches ConfigError::ValidationError(m) && m@
                == fault_message(config, fault)),
{
    let fault = match find_config_fault(config) {
        Some(fault) => fault,
        None => {
            return Ok(());
        },
    };
    proof {
        config.agents.lemma_same_length();
        config.workflows.lemma_same_length();
        lemma_fault_excludes_soundness(config, fault);
    }
    let message = match fault {
        ConfigFault::AgentWithoutName { agent } => {
            let mut m = "Agent name cannot be empty: ".to_owned();
            m.append(config.agents.name_at(agent));
            m
        },
        ConfigFault::AgentWithoutVersion { agent } => {
            let mut m = "Agent version cannot be empty: ".to_owned();
            m.append(config.agents.name_at(agent));
            m
        },
        ConfigFault::WorkflowWithoutName { workflow } => {
            let mut m = "Workflow name cannot be empty: ".to_owned();
            m.append(config.workflows.name_at(workflow));
            m
        },
        ConfigFault::WorkflowWithoutSteps { workflow } => {
            let mut m = "Workflow must have at least one step: ".to_owned();
            m.append(config.workflows.name_at(workflow));
            m
        },
        ConfigFault::UnknownDependency { workflow, step, dependency } => {
            let value = config.workflows.value_at(workflow);
            let mut m = "Invalid dependency '".to_owned();
            m.append(value.steps[step].dependencies[dependency].as_str());
            m.append("' in step '");
            m.append(value.steps[step].name.as_str());
            m.append("' of workflow '");
            m.append(config.workflows.name_at(workflow));
            m.append("': step not found");
            m
        },
    };
    Err(ConfigError::ValidationError(message))
}

/// A configuration with a fault is not sound.
pub proof fn lemma_fault_excludes_soundness(config: &GlobalConfig, fault: ConfigFault)
    requires
        is_first_fault(config, fault),
    ensures
        !config_sound(config),
{
    match fault {
        ConfigFault::AgentWithoutName { agent } | ConfigFault::AgentWithoutVersion { agent } => {
            assert(agent_fault(config, agent as int) is Some);
        },
        ConfigFault::WorkflowWithoutName { workflow }
        | ConfigFault::WorkflowWithoutSteps { workflow } => {
            assert(!workflow_sound(config, workflow as int));
        },
        ConfigFault::UnknownDependency { workflow, step, dependency } => {
            let value = config.workflows.values()[workflow as int];
            if dependencies_known(value) {
                assert(has_step(value, value.steps@[step as int].dependencies@[dependency as int]@));
            }
            assert(!workflow_sound(config, workflow as int));
        },
    }
}

/// Keeps a configuration and the path of the file that it belongs to.
/// Reading and writing the file is left to the caller.
#[derive(Debug, Clone)]
pub struct ConfigManager {
    config_path: PathBuf,
    config: GlobalConfig,
}

impl ConfigManager {
    /// The path of the configuration file.
    pub closed spec fn path(&self) -> PathBuf {
        self.config_path
    }

    /// The configuration.
    pub closed spec fn config(&self) -> GlobalConfig {
        self.config
    }

    /// A manager for the file at `config_path`, with the default
    /// configuration.
    pub fn new(config_path: PathBuf) -> (manager: Self)
        ensures
            manager.path() == config_path,
            manager.config().version@ == "1.0.0"@,
            manager.config().agents.names().len() == 0,
            manager.config().workflows.names().len() == 0,
            manager.config().global_settings.names().len() == 0,
    {
        ConfigManager { config_path, config: GlobalConfig::default() }
    }

    /// The path of the configuration file.
    pub fn config_path(&self) -> (path: &PathBuf)
        ensures
            *path == self.path(),
    {
        &self.config_path
    }

    /// The configuration.
    pub fn get_config(&self) -> (config: &GlobalConfig)
        ensures
            *config == self.config(),
    {
        &self.config
    }

    /// The configuration, to be changed in place.
    pub fn get_config_mut(&mut self) -> (config: &mut GlobalConfig)
        ensures
            *config == old(self).config(),
            final(self).path() == old(self).path(),
            final(self).config() == *final(config),
    {
        &mut self.config
    }

    /// The configuration of the agent under a key.
    pub fn get_agent_config(&self, name: &str) -> (r: Option<&AgentConfig>)
        ensures
            r == (if self.config().agents.has(name@) {
                Some(&self.config().agents.value_of(name@))
            } else {
                None
            }),
    {
        self.config.agents.get(name)
    }

    /// The configuration of the workflow under a key.
    pub fn get_workflow_config(&self, name: &str) -> (r: Option<&WorkflowConfig>)
        ensures
            r == (if self.config().workflows.has(name@) {
                Some(&self.config().workflows.value_of(name@))
            } else {
                None
            }),
    {
        self.config.workflows.get(name)
    }

    /// Puts the configuration of an agent under the agent's name, in
    /// place of the one that stood there, if any.
    pub fn add_agent_config(&mut self, config: AgentConfig)
        ensures
            final(self).path() == old(self).path(),
            final(self).config().version == old(self).config().version,
            final(self).config().workflows == old(self).config().workflows,
            final(self).config().global_settings == old(self).config().global_settings,
            final(self).config().agents.has(config.name@),
            final(self).config().agents.value_of(config.name@) == config,
            forall|other: Seq<char>|
                other != config.name@ ==> {
                    final(self).config().agents.has(other) <==> old(self).config().agents.has(other)
                },
    {
        let name = config.name.clone();
        self.config.agents.insert(name, config);
    }

    /// Puts the configuration of a workflow under the workflow's name, in
    /// place of the one that stood there, if any.
    pub fn add_workflow_config(&mut self, config: WorkflowConfig)
        ensures
            final(self).path() == old(self).path(),
            final(self).config().version == old(self).config().version,
            final(self).config().agents == old(self).config().agents,
            final(self).config().global_settings == old(self).config().global_settings,
            final(self).config().workflows.has(config.name@),
            final(self).config().workflows.value_of(config.name@) == config,
            forall|other: Seq<char>|
                other != config.name@ ==> {
                    final(self).config().workflows.has(other) <==> old(self).config().workflows.has(
                        other,
                    )
                },
    {
        let name = config.name.clone();
        self.config.workflows.insert(name, config);
    }

    /// Takes the configuration of the agent under a key out.
    pub fn remove_agent_config(&mut self, name: &str) -> (r: Option<AgentConfig>)
        ensures
            final(self).path() == old(self).path(),
            final(self).config().version == old(self).config().version,
            final(self).config().workflows == old(self).config().workflows,
            final(self).config().global_settings == old(self).config().global_settings,
            r == (if old(self).config().agents.has(name@) {
                Some(old(self).config().agents.value_of(name@))
            } else {
                None
            }),
            old(self).config().agents.wf() ==> !final(self).config().agents.has(name@),
    {
        self.config.agents.remove(name)
    }

    /// Takes the configuration of the workflow under a key out.
    pub fn remove_workflow_config(&mut self, name: &str) -> (r: Option<WorkflowConfig>)
        ensures
            final(self).path() == old(self).path(),
            final(self).config().version == old(self).config().version,
            final(self).config().agents == old(self).config().agents,
            final(self).config().global_settings == old(self).config().global_settings,
            r == (if old(self).config().workflows.has(name@) {
                Some(old(self).config().workflows.value_of(name@))
            } else {
                None
            }),
            old(self).config().workflows.wf() ==> !final(self).config().workflows.has(name@),
    {
        self.config.workflows.remove(name)
    }

    /// Checks the configuration.
    pub fn validate_config(&self) -> (r: Result<(), ConfigError>)
        ensures
            r is Ok <==> config_sound(&self.config()),
            r matches Err(e) ==> exists|fault: ConfigFault|
                is_first_fault(&self.config(), fault) && (e matches ConfigError::ValidationError(m)
                    && m@ == fault_message(&self.config(), fault)),
    {
        let r = validate_config(&self.config);
        proof {
            if r is Err {
                let fault = choose|fault: ConfigFault|
                    is_first_fault(&self.config, fault) && (
                    r->Err_0 matches ConfigError::ValidationError(m) && m@ == fault_message(
                        &self.config,
                        fault,
                    ));
                assert(is_first_fault(&self.config(), fault));
                assert(fault_message(&self.config(), fault) == fault_message(&self.config, fault));
            }
        }
        r
    }
}

} // verus!
