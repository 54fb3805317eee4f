//! The agents that a workflow can name.

use vstd::prelude::*;
use crate::model::AgentCapability;
use crate::model::ProjectType;
use crate::named_map::position_of;
use crate::text::same_text;

verus! {

/// What the registry knows of an agent.
#[derive(Debug, Clone)]
pub struct AgentProfile {
    pub name: String,
    pub version: String,
    pub description: String,
    pub supported_types: Vec<ProjectType>,
    pub capabilities: Vec<AgentCapability>,
}

/// The registered agents, each under its name.
pub struct AgentRegistry {
    agents: Vec<AgentProfile>,
}

impl AgentRegistry {
    /// The registered agents, in the order in which their names came in.
    pub closed spec fn profiles(&self) -> Seq<AgentProfile> {
        self.agents@
    }

    /// The names of the registered agents.
    pub open spec fn names(&self) -> Seq<Seq<char>> {
        Seq::new(self.profiles().len(), |i: int| self.profiles()[i].name@)
    }

    /// Whether an agent is registered under `name`.
    pub open spec fn knows(&self, name: Seq<char>) -> bool {
        self.names().contains(name)
    }

    /// No name is registered twice.
    pub open spec fn wf(&self) -> bool {
        self.names().no_duplicates()
    }

    /// A registry without agents.
    pub fn new() -> (registry: Self)
        ensures
            registry.profiles().len() == 0,
            registry.wf(),
    {
        AgentRegistry { agents: Vec::new() }
    }

    /// The position of the agent with that name, or the number of agents
    /// where there is none.
    fn find(&self, name: &str) -> (i: usize)
        ensures
            i == position_of(self.names(), name@),
            i <= self.profiles().len(),
            i < self.profiles().len() <==> self.knows(name@),
            i < self.profiles().len() ==> self.profiles()[i as int].name@ == name@,
    {
        proof {
            crate::named_map::lemma_position_of(self.names(), name@);
        }
        let mut i: usize = 0;
        while i < self.agents.len()
            invariant
                i <= self.agents@.len(),
                self.names().len() == self.agents@.len(),
                i <= position_of(self.names(), name@),
                position_of(self.names(), name@) < self.names().len() ==> self.names()[position_of(
                    self.names(),
                    name@,
                )] == name@,
                forall|j: int|
                    0 <= j < position_of(self.names(), name@) ==> self.names()[j] != name@,
                self.names().contains(name@) <==> position_of(self.names(), name@)
                    < self.names().len(),
            decreases self.agents@.len() - i,
        {
            if same_text(self.agents[i].name.as_str(), name) {
                assert(self.names()[i as int] == name@);
                return i;
            }
            assert(self.names()[i as int] != name@);
            i = i + 1;
        }
        i
    }

    /// Registers an agent under its name. An agent that was registered
    /// under the same name before is replaced.
    pub fn register_agent(&mut self, agent: AgentProfile)
        ensures
            old(self).knows(agent.name@) ==> final(self).profiles() == old(self).profiles().update(
                position_of(old(self).names(), agent.name@),
                agent,
            ),
            !old(self).knows(agent.name@) ==> final(self).profiles() == old(self).profiles().push(
                agent,
            ),
            final(self).knows(agent.name@),
            forall|name: Seq<char>| old(self).knows(name) ==> final(self).knows(name),
            old(self).wf() ==> final(self).wf(),
    {
        let ghost before = *self;
        let i = self.find(agent.name.as_str());
        if i < self.agents.len() {
            self.agents.set(i, agent);
            proof {
                assert(self.names() =~= before.names());
            }
        } else {
            self.agents.push(agent);
            proof {
                assert(self.names() =~= before.names().push(agent.name@));
                assert(self.names()[before.names().len() as int] == agent.name@);
                assert forall|name: Seq<char>| before.knows(name) implies self.knows(name) by {
                    let j = choose|j: int| 0 <= j < before.names().len() && before.names()[j] == name;
                    assert(self.names()[j] == name);
                }
                if before.wf() {
                    assert forall|a: int, b: int|
                        0 <= a < self.names().len() && 0 <= b < self.names().len() && a
                            != b implies self.names()[a] != self.names()[b] by {
                        if a < before.names().len() {
                            assert(before.names()[a] == self.names()[a]);
                        }
                        if b < before.names().len() {
                            assert(before.names()[b] == self.names()[b]);
                        }
                    }
                }
            }
        }
    }

    /// Whether an agent is registered under `name`.
    pub fn contains(&self, name: &str) -> (b: bool)
        ensures
            b == self.knows(name@),
    {
        self.find(name) < self.agents.len()
    }

    /// The agent registered under `name`.
    pub fn get_agent(&self, name: &str) -> (r: Option<&AgentProfile>)
        ensures
            r is Some <==> self.knows(name@),
            r matches Some(agent) ==> *agent == self.profiles()[position_of(self.names(), name@)],
    {
        let i = self.find(name);
        if i < self.agents.len() {
            Some(&self.agents[i])
        } else {
            None
        }
    }

    /// The agents that have a capability, in the order of registration.
    pub fn find_agents_by_capability(&self, capability: &AgentCapability) -> (found: Vec<
        &AgentProfile,
    >)
        ensures
            Seq::new(found@.len(), |i: int| *found@[i]) == self.profiles().filter(
                |agent: AgentProfile| agent.capabilities@.contains(*capability),
            ),
    {
        let ghost wanted = |agent: AgentProfile| agent.capabilities@.contains(*capability);
        let mut found: Vec<&AgentProfile> = Vec::new();
        let mut i: usize = 0;
        proof {
            assert(self.profiles().take(0) =~= Seq::empty());
            reveal(Seq::filter);
            assert(Seq::new(found@.len(), |j: int| *found@[j]) =~= self.profiles().take(0).filter(
                wanted,
            ));
        }
        while i < self.agents.len()
            invariant
                i <= self.agents@.len(),
                wanted == (|agent: AgentProfile| agent.capabilities@.contains(*capability)),
                Seq::new(found@.len(), |j: int| *found@[j]) == self.profiles().take(i as int).filter(
                    wanted,
                ),
            decreases self.agents@.len() - i,
        {
            let ghost before = Seq::new(found@.len(), |j: int| *found@[j]);
            let agent = &self.agents[i];
            let mut has = false;
            let mut k: usize = 0;
            while k < agent.capabilities.len()
                invariant
                    k <= agent.capabilities@.len(),
                    has == exists|j: int| 0 <= j < k && agent.capabilities@[j] == *capability,
                decreases agent.capabilities@.len() - k,
            {
                if agent.capabilities[k] == *capability {
                    has = true;
                }
                k = k + 1;
            }
            if has {
                found.push(agent);
            }
            proof {
                reveal(Seq::filter);
                let next = self.profiles().take(i + 1);
                assert(next.drop_last() =~= self.profiles().take(i as int));
                assert(next.last() == *agent);
                assert(has == wanted(*agent));
                if has {
                    assert(Seq::new(found@.len(), |j: int| *found@[j]) =~= before.push(*agent));
                }
                assert(Seq::new(found@.len(), |j: int| *found@[j]) =~= next.filter(wanted));
            }
            i = i + 1;
        }
        assert(self.profiles().take(self.agents@.len() as int) =~= self.profiles());
        found
    }

    /// The agents that work on a type of project, in the order of
    /// registration.
    pub fn find_agents_by_project_type(&self, project_type: &ProjectType) -> (found: Vec<
        &AgentProfile,
    >)
        ensures
            Seq::new(found@.len(), |i: int| *found@[i]) == self.profiles().filter(
                |agent: AgentProfile| agent.supported_types@.contains(*project_type),
            ),
    {
        let ghost wanted = |agent: AgentProfile| agent.supported_types@.contains(*project_type);
        let mut found: Vec<&AgentProfile> = Vec::new();
        let mut i: usize = 0;
        proof {
            assert(self.profiles().take(0) =~= Seq::empty());
            reveal(Seq::filter);
            assert(Seq::new(found@.len(), |j: int| *found@[j]) =~= self.profiles().take(0).filter(
                wanted,
            ));
        }
        while i < self.agents.len()
            invariant
                i <= self.agents@.len(),
                wanted == (|agent: AgentProfile| agent.supported_types@.contains(*project_type)),
                Seq::new(found@.len(), |j: int| *found@[j]) == self.profiles().take(i as int).filter(
                    wanted,
                ),
            decreases self.agents@.len() - i,
        {
            let ghost before = Seq::new(found@.len(), |j: int| *found@[j]);
            let agent = &self.agents[i];
            let mut has = false;
            let mut k: usize = 0;
            while k < agent.supported_types.len()
                invariant
                    k <= agent.supported_types@.len(),
                    has == exists|j: int| 0 <= j < k && agent.supported_types@[j] == *project_type,
                decreases agent.supported_types@.len() - k,
            {
                if agent.supported_types[k] == *project_type {
                    has = true;
                }
                k = k + 1;
            }
            if has {
                found.push(agent);
            }
            proof {
                reveal(Seq::filter);
                let next = self.profiles().take(i + 1);
                assert(next.drop_last() =~= self.profiles().take(i as int));
                assert(next.last() == *agent);
                assert(has == wanted(*agent));
                if has {
                    assert(Seq::new(found@.len(), |j: int| *found@[j]) =~= before.push(*agent));
                }
                assert(Seq::new(found@.len(), |j: int| *found@[j]) =~= next.filter(wanted));
            }
            i = i + 1;
        }
        assert(self.profiles().take(self.agents@.len() as int) =~= self.profiles());
        found
    }

    /// The names of the registered agents, in the order of registration.
    pub fn list_agents(&self) -> (r: Vec<&str>)
        ensures
            r@.len() == self.names().len(),
            forall|i: int| 0 <= i < r@.len() ==> r@[i]@ == self.names()[i],
    {
        let mut names: Vec<&str> = Vec::new();
        let mut i: usize = 0;
        while i < self.agents.len()
            invariant
                i <= self.agents@.len(),
                names@.len() == i,
                forall|j: int| 0 <= j < i ==> names@[j]@ == self.names()[j],
            decreases self.agents@.len() - i,
        {
            names.push(self.agents[i].name.as_str());
            i = i + 1;
        }
        names
    }
}

} // verus!
