use crate::models::agent_basic::basic_agent::AgentState;
use crate::models::agents::agent_protocol::{EffectView, EventView};
use crate::models::agents::agent_traits::FactSheetView;
use crate::models::agents_manager::managing_agent::{
    agent_step, first_unfinished, manager_drive, manager_step, AgentView, ManagerView,
};
use vstd::prelude::*;

verus! {

/// Whether the agents before the place `upto` are all finished.
pub open spec fn finished_before(agents: Seq<AgentView>, upto: int) -> bool {
    forall|k: int|
        0 <= k < upto && k < agents.len() ==> (#[trigger] agents[k]).attributes().state
            == AgentState::Finished
}

/// Whether two lists of agents agree behind the place `from`.
pub open spec fn same_behind(left: Seq<AgentView>, right: Seq<AgentView>, from: int) -> bool {
    forall|k: int| from < k < left.len() ==> #[trigger] left[k] == right[k]
}

/// An agent whose step ends with `Finished` is in the state `Finished`.
pub proof fn lemma_agent_reports_its_end(
    agent: AgentView,
    factsheet: FactSheetView,
    event: EventView,
)
    ensures
        agent_step(agent, factsheet, event).step.next is Finished ==> agent_step(
            agent,
            factsheet,
            event,
        ).agent.attributes().state == AgentState::Finished,
{
}

/// No step of an agent enters the state `Error`.
pub proof fn lemma_agent_never_enters_error(
    agent: AgentView,
    factsheet: FactSheetView,
    event: EventView,
)
    requires
        agent.attributes().state != AgentState::Error,
    ensures
        agent_step(agent, factsheet, event).agent.attributes().state != AgentState::Error,
{
}

/// A step changes neither the objective nor the position of an agent.
pub proof fn lemma_agent_keeps_its_role(
    agent: AgentView,
    factsheet: FactSheetView,
    event: EventView,
)
    ensures
        agent_step(agent, factsheet, event).agent.attributes().objective
            == agent.attributes().objective,
        agent_step(agent, factsheet, event).agent.attributes().position
            == agent.attributes().position,
        agent_step(agent, factsheet, event).factsheet.project_description
            == factsheet.project_description,
{
}

/// The agents before the first unfinished one are finished.
pub proof fn lemma_first_unfinished(agents: Seq<AgentView>, from: nat)
    requires
        finished_before(agents, from as int),
    ensures
        from <= agents.len() ==> from <= first_unfinished(agents, from) <= agents.len(),
        finished_before(agents, first_unfinished(agents, from) as int),
        first_unfinished(agents, from) < agents.len() ==> agents[first_unfinished(
            agents,
            from,
        ) as int].attributes().state != AgentState::Finished,
    decreases agents.len() - from,
{
    if from < agents.len() && agents[from as int].attributes().state == AgentState::Finished {
        lemma_first_unfinished(agents, from + 1);
    }
}

/// The agents run strictly in their order. Where the agents before
/// `index` are finished and the event goes to the agent at `index`, there
/// is a place at or behind `index` such that afterwards every agent before
/// it is finished and every agent behind it is as it was: no agent is
/// touched before all agents in front of it are finished. The coordinator
/// keeps its agents and its attributes, and it reports `Finished` only
/// when every agent is finished.
pub proof fn lemma_manager_drive_in_order(
    manager: ManagerView,
    index: nat,
    event: EventView,
    effects: Seq<EffectView>,
)
    requires
        index <= manager.agents.len(),
        finished_before(manager.agents, index as int),
    ensures
        ({
            let after = manager_drive(manager, index, event, effects);
            &&& after.manager.agents.len() == manager.agents.len()
            &&& after.manager.attributes == manager.attributes
            &&& after.manager.factsheet.project_description
                == manager.factsheet.project_description
            &&& after.step.next is Finished ==> finished_before(
                after.manager.agents,
                manager.agents.len() as int,
            )
            &&& exists|place: int|
                index <= place <= manager.agents.len() && #[trigger] finished_before(
                    after.manager.agents,
                    place,
                ) && same_behind(after.manager.agents, manager.agents, place)
        }),
    decreases manager.agents.len() - index,
{
    let after = manager_drive(manager, index, event, effects);
    if index >= manager.agents.len() {
        assert(finished_before(after.manager.agents, index as int) && same_behind(
            after.manager.agents,
            manager.agents,
            index as int,
        ));
    } else {
        let taken = agent_step(manager.agents[index as int], manager.factsheet, event);
        lemma_agent_reports_its_end(manager.agents[index as int], manager.factsheet, event);
        lemma_agent_keeps_its_role(manager.agents[index as int], manager.factsheet, event);
        let moved = ManagerView {
            factsheet: taken.factsheet,
            agents: manager.agents.update(index as int, taken.agent),
            ..manager
        };
        if taken.step.next is Finished {
            assert(finished_before(moved.agents, index as int + 1));
            lemma_manager_drive_in_order(
                moved,
                index + 1,
                EventView::Start,
                effects + taken.step.effects,
            );
            let place = choose|place: int|
                index + 1 <= place <= moved.agents.len() && #[trigger] finished_before(
                    after.manager.agents,
                    place,
                ) && same_behind(after.manager.agents, moved.agents, place);
            assert(same_behind(after.manager.agents, manager.agents, place));
            assert(index <= place <= manager.agents.len() && finished_before(
                after.manager.agents,
                place,
            ));
        } else {
            assert(finished_before(after.manager.agents, index as int) && same_behind(
                after.manager.agents,
                manager.agents,
                index as int,
            ));
        }
    }
}

/// The law of the order for a step of the coordinator, whatever the
/// coordinator holds: afterwards the agents are finished up to some
/// place and untouched behind it, and `Finished` is reported only when
/// all of them are finished.
pub proof fn lemma_manager_step_in_order(manager: ManagerView, event: EventView)
    ensures
        ({
            let after = manager_step(manager, event);
            &&& after.manager.agents.len() == manager.agents.len()
            &&& after.manager.attributes == manager.attributes
            &&& after.manager.factsheet.project_description
                == manager.factsheet.project_description
            &&& after.step.next is Finished ==> finished_before(
                after.manager.agents,
                manager.agents.len() as int,
            )
            &&& exists|place: int|
                0 <= place <= manager.agents.len() && #[trigger] finished_before(
                    after.manager.agents,
                    place,
                ) && same_behind(after.manager.agents, manager.agents, place)
        }),
{
    lemma_first_unfinished(manager.agents, 0);
    let index = first_unfinished(manager.agents, 0);
    lemma_manager_drive_in_order(manager, index, event, Seq::empty());
    let after = manager_step(manager, event);
    let place = choose|place: int|
        index <= place <= manager.agents.len() && #[trigger] finished_before(
            after.manager.agents,
            place,
        ) && same_behind(after.manager.agents, manager.agents, place);
    assert(0 <= place <= manager.agents.len() && finished_before(after.manager.agents, place)
        && same_behind(after.manager.agents, manager.agents, place));
}

/// A coordinator whose agents are all finished stays as it is and
/// reports `Finished`, whatever the event.
pub proof fn lemma_manager_finished_is_terminal(manager: ManagerView, event: EventView)
    requires
        finished_before(manager.agents, manager.agents.len() as int),
    ensures
        manager_step(manager, event).manager == manager,
        manager_step(manager, event).step.effects == Seq::<EffectView>::empty(),
        manager_step(manager, event).step.next is Finished,
{
    lemma_all_finished(manager.agents, 0);
}

/// Where all agents are finished there is no first unfinished one.
proof fn lemma_all_finished(agents: Seq<AgentView>, from: nat)
    requires
        finished_before(agents, agents.len() as int),
    ensures
        first_unfinished(agents, from) == agents.len(),
    decreases agents.len() - from,
{
    if from < agents.len() {
        lemma_all_finished(agents, from + 1);
    }
}

} // verus!
