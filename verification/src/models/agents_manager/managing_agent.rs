use crate::models::agent_basic::basic_agent::{AgentState, BasicAgent, BasicAgentView};
use crate::models::agents::agent_architect::{
    architect_step, initial_architect, AgentSolutionArchitect, ArchitectView,
};
use crate::models::agents::agent_backend::{
    backend_step, initial_backend, AgentBackendDeveloper, BackendView,
};
use crate::models::agents::agent_protocol::{
    no_effects, AiFunction, Effect, EffectView, Event, EventView, ModelRequest, ModelRequestView,
    Next, NextView, Step, StepView,
};
use crate::models::agents::agent_traits::{FactSheet, FactSheetView};
use vstd::prelude::*;
use vstd::string::StringExecFns;

verus! {

/// One of the agents that the coordinator runs.
#[derive(Debug)]
pub enum Agent {
    Architect(AgentSolutionArchitect),
    Backend(AgentBackendDeveloper),
}

pub enum AgentView {
    Architect(ArchitectView),
    Backend(BackendView),
}

impl View for Agent {
    type V = AgentView;

    open spec fn view(&self) -> AgentView {
        match self {
            Agent::Architect(agent) => AgentView::Architect(agent@),
            Agent::Backend(agent) => AgentView::Backend(agent@),
        }
    }
}

impl DeepView for Agent {
    type V = AgentView;

    open spec fn deep_view(&self) -> AgentView {
        self@
    }
}

impl AgentView {
    /// The attributes of the agent.
    pub open spec fn attributes(self) -> BasicAgentView {
        match self {
            AgentView::Architect(agent) => agent.attributes,
            AgentView::Backend(agent) => agent.attributes,
        }
    }
}

/// What one step of an agent leaves.
pub struct AgentOutcome {
    pub agent: AgentView,
    pub factsheet: FactSheetView,
    pub step: StepView,
}

/// The step of an agent, whichever kind it is of.
pub open spec fn agent_step(agent: AgentView, factsheet: FactSheetView, event: EventView)
    -> AgentOutcome {
    match agent {
        AgentView::Architect(architect) => {
            let after = architect_step(architect, factsheet, event);
            AgentOutcome {
                agent: AgentView::Architect(after.agent),
                factsheet: after.factsheet,
                step: after.step,
            }
        },
        AgentView::Backend(backend) => {
            let after = backend_step(backend, factsheet, event);
            AgentOutcome {
                agent: AgentView::Backend(after.agent),
                factsheet: after.factsheet,
                step: after.step,
            }
        },
    }
}

impl Agent {
    /// The attributes of the agent.
    pub fn get_attributes_from_agents(&self) -> (attributes: &BasicAgent)
        ensures
            attributes@ == self@.attributes(),
    {
        match self {
            Agent::Architect(agent) => agent.get_attributes_from_agents(),
            Agent::Backend(agent) => agent.get_attributes_from_agents(),
        }
    }

    /// One step of the agent on the fact sheet.
    pub fn step(&mut self, factsheet: &mut FactSheet, event: Event) -> (step: Step)
        ensures
            final(self)@ == agent_step(old(self)@, old(factsheet)@, event@).agent,
            final(factsheet)@ == agent_step(old(self)@, old(factsheet)@, event@).factsheet,
            step@ == agent_step(old(self)@, old(factsheet)@, event@).step,
    {
        match self {
            Agent::Architect(agent) => agent.step(factsheet, event),
            Agent::Backend(agent) => agent.step(factsheet, event),
        }
    }
}

/// The coordinator: it owns the fact sheet and the agents, and runs the
/// agents one after the other, each to its end, on that one fact sheet.
#[derive(Debug)]
pub struct ManagingAgent {
    attributes: BasicAgent,
    factsheet: FactSheet,
    agents: Vec<Agent>,
}

/// What a coordinator holds, with its texts as sequences.
pub struct ManagerView {
    pub attributes: BasicAgentView,
    pub factsheet: FactSheetView,
    pub agents: Seq<AgentView>,
}

impl View for ManagingAgent {
    type V = ManagerView;

    closed spec fn view(&self) -> ManagerView {
        ManagerView {
            attributes: self.attributes@,
            factsheet: self.factsheet@,
            agents: self.agents.deep_view(),
        }
    }
}

/// What one step of the coordinator leaves.
pub struct ManagerOutcome {
    pub manager: ManagerView,
    pub step: StepView,
}

/// The coordinator of a project with this description, before any agent
/// is made.
pub open spec fn initial_manager(project_description: Seq<char>) -> ManagerView {
    ManagerView {
        attributes: BasicAgentView {
            objective: "Manage agents who are building websites for users"@,
            position: "project manager"@,
            state: AgentState::Discovery,
            memory: Seq::empty(),
        },
        factsheet: FactSheetView {
            project_description,
            project_scope: None,
            external_urls: None,
            backend_code: None,
            api_endpoint_schema: None,
        },
        agents: Seq::empty(),
    }
}

/// The agents of a project, in the order in which they run: the solution
/// architect, then the backend developer.
pub open spec fn project_agents() -> Seq<AgentView> {
    seq![AgentView::Architect(initial_architect()), AgentView::Backend(initial_backend())]
}

/// The place of the first agent, from `from` on, that is not finished,
/// or the number of agents where all of them are.
pub open spec fn first_unfinished(agents: Seq<AgentView>, from: nat) -> nat
    decreases agents.len() - from,
{
    if from >= agents.len() {
        agents.len()
    } else if agents[from as int].attributes().state != AgentState::Finished {
        from
    } else {
        first_unfinished(agents, from + 1)
    }
}

/// The coordinator hands `event` to the agent at `index`. Where that
/// agent answers that it is finished, the next agent is started, and so
/// on. The effects of all these steps come one after the other, behind
/// `effects`; the step ends as the last agent that was asked says, or
/// with `Finished` when no agent is left.
pub open spec fn manager_drive(
    manager: ManagerView,
    index: nat,
    event: EventView,
    effects: Seq<EffectView>,
) -> ManagerOutcome
    decreases manager.agents.len() - index,
{
    if index >= manager.agents.len() {
        ManagerOutcome { manager, step: StepView { effects, next: NextView::Finished } }
    } else {
        let after = agent_step(manager.agents[index as int], manager.factsheet, event);
        let moved = ManagerView {
            factsheet: after.factsheet,
            agents: manager.agents.update(index as int, after.agent),
            ..manager
        };
        if after.step.next is Finished {
            manager_drive(moved, index + 1, EventView::Start, effects + after.step.effects)
        } else {
            ManagerOutcome {
                manager: moved,
                step: StepView { effects: effects + after.step.effects, next: after.step.next },
            }
        }
    }
}

/// The transition function of the coordinator: the event goes to the
/// first agent that is not finished.
pub open spec fn manager_step(manager: ManagerView, event: EventView) -> ManagerOutcome {
    manager_drive(manager, first_unfinished(manager.agents, 0), event, Seq::empty())
}

/// The request that turns what the user asks for into the description of
/// the project.
pub open spec fn goal_request(user_req: Seq<char>) -> ModelRequestView {
    ModelRequestView {
        context: user_req,
        position: "project manager"@,
        operation: AiFunction::PrintProjectScope,
        template: AiFunction::ConvertUserInputToGoal,
    }
}

impl ManagingAgent {
    /// The request to the model with which a project begins.
    pub fn describe_goal(user_req: String) -> (request: ModelRequest)
        ensures
            request@ == goal_request(user_req@),
    {
        ModelRequest {
            context: user_req,
            position: String::from_str("project manager"),
            operation: AiFunction::PrintProjectScope,
            template: AiFunction::ConvertUserInputToGoal,
        }
    }

    /// The coordinator of a project with the description that the model
    /// gave: it has no agents yet, and its fact sheet holds nothing but
    /// the description.
    pub fn new(project_description: String) -> (manager: Self)
        ensures
            manager@ == initial_manager(project_description@),
    {
        let attributes = BasicAgent::new(
            String::from_str("Manage agents who are building websites for users"),
            String::from_str("project manager"),
        );
        let agents: Vec<Agent> = Vec::new();
        assert(agents.deep_view() =~= Seq::<AgentView>::empty());
        ManagingAgent { attributes, factsheet: FactSheet::new(project_description), agents }
    }

    /// The attributes of the coordinator.
    pub fn get_attributes_from_agents(&self) -> (attributes: &BasicAgent)
        ensures
            attributes@ == self@.attributes,
    {
        &self.attributes
    }

    /// The fact sheet of the project.
    pub fn factsheet(&self) -> (factsheet: &FactSheet)
        ensures
            factsheet@ == self@.factsheet,
    {
        &self.factsheet
    }

    /// The agents of the project, in the order in which they run.
    pub fn agents(&self) -> (agents: &Vec<Agent>)
        ensures
            agents.deep_view() == self@.agents,
    {
        &self.agents
    }

    /// Puts an agent behind the agents that the coordinator has.
    pub fn add_agent(&mut self, agent: Agent)
        ensures
            final(self)@ == (ManagerView { agents: old(self)@.agents.push(agent@), ..old(self)@ }),
    {
        self.agents.push(agent);
        assert(self.agents.deep_view() =~= old(self).agents.deep_view().push(agent@));
    }

    /// Makes the agents of a project and puts them behind the agents that
    /// the coordinator has: the solution architect, then the backend
    /// developer.
    pub fn create_agents(&mut self)
        ensures
            final(self)@ == (ManagerView {
                agents: old(self)@.agents + project_agents(),
                ..old(self)@
            }),
    {
        self.add_agent(Agent::Architect(AgentSolutionArchitect::new()));
        self.add_agent(Agent::Backend(AgentBackendDeveloper::new()));
        assert(self@.agents =~= old(self)@.agents + project_agents());
    }

    /// The place of the first agent, from `from` on, that is not finished.
    fn find_unfinished(&self, from: usize) -> (index: usize)
        requires
            from <= self.agents.len(),
        ensures
            index == first_unfinished(self@.agents, from as nat),
            index <= self.agents.len(),
        decreases self.agents.len() - from,
    {
        if from >= self.agents.len() {
            self.agents.len()
        } else if self.agents[from].get_attributes_from_agents().state != AgentState::Finished {
            from
        } else {
            self.find_unfinished(from + 1)
        }
    }

    fn drive(&mut self, index: usize, event: Event, effects: Vec<Effect>) -> (step: Step)
        requires
            index <= old(self).agents.len(),
        ensures
            final(self)@ == manager_drive(
                old(self)@,
                index as nat,
                event@,
                effects.deep_view(),
            ).manager,
            step@ == manager_drive(old(self)@, index as nat, event@, effects.deep_view()).step,
        decreases old(self).agents.len() - index,
    {
        if index >= self.agents.len() {
            return Step { effects, next: Next::Finished };
        }
        let mut effects = effects;
        let ghost before = effects.deep_view();
        let ghost agents_before = self.agents.deep_view();
        let mut taken = self.agents[index].step(&mut self.factsheet, event);
        assert(self.agents.deep_view() =~= agents_before.update(
            index as int,
            self.agents[index as int]@,
        ));
        let ghost added = taken.effects.deep_view();
        effects.append(&mut taken.effects);
        assert(effects.deep_view() =~= before + added);
        match taken.next {
            Next::Finished => self.drive(index + 1, Event::Start, effects),
            next => Step { effects, next },
        }
    }

    /// One step of the coordinator: the event goes to the first agent
    /// that is not finished; where that agent finishes, the next one is
    /// started. The step is exactly what [`manager_step`] describes.
    pub fn step(&mut self, event: Event) -> (step: Step)
        ensures
            final(self)@ == manager_step(old(self)@, event@).manager,
            step@ == manager_step(old(self)@, event@).step,
    {
        let index = self.find_unfinished(0);
        self.drive(index, event, no_effects())
    }

    /// Begins the project: makes the agents and starts the first of them.
    /// The driver performs what the step asks for and reports each answer
    /// with [`ManagingAgent::step`], until a step ends with `Finished` or
    /// `Aborted`.
    pub fn execute_project(&mut self) -> (step: Step)
        ensures
            final(self)@ == manager_step(
                ManagerView { agents: old(self)@.agents + project_agents(), ..old(self)@ },
                EventView::Start,
            ).manager,
            step@ == manager_step(
                ManagerView { agents: old(self)@.agents + project_agents(), ..old(self)@ },
                EventView::Start,
            ).step,
    {
        self.create_agents();
        self.step(Event::Start)
    }
}

} // verus!
