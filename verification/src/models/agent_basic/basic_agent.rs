use crate::models::general::llm::{Message, MessageView};
use vstd::prelude::*;

verus! {

/// Where an agent stands in its workflow. Every agent starts in
/// `Discovery`; `Finished` is the only state that ends its work. `Error`
/// holds the place of a state of error: no step of any agent enters it,
/// and an agent that is found in it gives up.
#[derive(PartialEq, Eq, Debug, Clone, Copy, Structural)]
pub enum AgentState {
    Discovery,
    Working,
    UnitTesting,
    Finished,
    Error,
}

/// What every agent has: its objective, its role, its state and the
/// messages it has exchanged.
#[derive(Debug, PartialEq)]
pub struct BasicAgent {
    pub objective: String,
    pub position: String,
    pub state: AgentState,
    pub memory: Vec<Message>,
}

/// A [`BasicAgent`] with its texts as sequences of characters.
pub struct BasicAgentView {
    pub objective: Seq<char>,
    pub position: Seq<char>,
    pub state: AgentState,
    pub memory: Seq<MessageView>,
}

impl View for BasicAgent {
    type V = BasicAgentView;

    open spec fn view(&self) -> BasicAgentView {
        BasicAgentView {
            objective: self.objective@,
            position: self.position@,
            state: self.state,
            memory: self.memory.deep_view(),
        }
    }
}

impl BasicAgent {
    /// The attributes of an agent that has not begun: state `Discovery`
    /// and an empty memory.
    pub fn new(objective: String, position: String) -> (agent: Self)
        ensures
            agent@ == (BasicAgentView {
                objective: objective@,
                position: position@,
                state: AgentState::Discovery,
                memory: Seq::empty(),
            }),
    {
        let agent = BasicAgent {
            objective,
            position,
            state: AgentState::Discovery,
            memory: Vec::new(),
        };
        assert(agent.memory.deep_view() =~= Seq::empty());
        agent
    }
}

} // verus!
