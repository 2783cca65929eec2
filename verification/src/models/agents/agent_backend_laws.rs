use crate::helpers::command_line::PrintCommand;
use crate::models::agent_basic::basic_agent::AgentState;
use crate::models::agents::agent_backend::{
    backend_step, improved_code_context, initial_backend, selected_routes, BackendView, Waiting,
    BUG_BUDGET,
};
use crate::models::agents::agent_protocol::{
    AgentErrorView, AiFunction, EffectView, EventView, ModelRequestView, NextView, RequestView,
};
use crate::models::agents::agent_traits::{FactSheetView, RouteView};
use vstd::prelude::*;

verus! {

/// What a run of the backend developer leaves: the agent, the fact sheet
/// and all the effects that its steps asked for, in their order.
pub struct BackendRun {
    pub agent: BackendView,
    pub factsheet: FactSheetView,
    pub effects: Seq<EffectView>,
}

/// The run of the agent over `events`, one step for each event.
pub open spec fn backend_run(agent: BackendView, factsheet: FactSheetView, events: Seq<EventView>)
    -> BackendRun
    decreases events.len(),
{
    if events.len() == 0 {
        BackendRun { agent, factsheet, effects: Seq::empty() }
    } else {
        let first = backend_step(agent, factsheet, events.first());
        let rest = backend_run(first.agent, first.factsheet, events.drop_first());
        BackendRun {
            agent: rest.agent,
            factsheet: rest.factsheet,
            effects: first.step.effects + rest.effects,
        }
    }
}

/// Whether an effect prints a line of the kind `Issue`.
pub open spec fn is_issue(effect: EffectView) -> bool {
    effect matches EffectView::Print(printed) && printed.command == PrintCommand::Issue
}

/// What holds of every backend developer that was made by `new` and
/// changed by steps alone: the agent is not in the state `Error`, the
/// bug count of a live agent is within the budget, the agent waits for
/// an answer that belongs to its state, the route under probe exists, and
/// the server runs only while routes are probed.
pub open spec fn backend_consistent(agent: BackendView) -> bool {
    let state = agent.attributes.state;
    &&& state != AgentState::Error
    &&& agent.failure is None ==> agent.bug_count <= BUG_BUDGET
    &&& agent.server_running ==> agent.failure is None && state == AgentState::UnitTesting
        && agent.waiting == Waiting::Probe
    &&& state == AgentState::Finished ==> agent.failure is None && agent.waiting == Waiting::Start
    &&& agent.failure is None ==> match agent.waiting {
        Waiting::Start => true,
        Waiting::CodeTemplate => state == AgentState::Discovery,
        Waiting::Code => state == AgentState::Discovery || state == AgentState::Working,
        Waiting::Probe => state == AgentState::UnitTesting && agent.probe_index
            < agent.probe_routes.len(),
        _ => state == AgentState::UnitTesting,
    }
}

/// A new backend developer starts in `Discovery` and is consistent.
pub proof fn lemma_backend_starts_in_discovery()
    ensures
        initial_backend().attributes.state == AgentState::Discovery,
        backend_consistent(initial_backend()),
{
}

/// No step of the backend developer enters the state `Error`.
pub proof fn lemma_backend_never_enters_error(
    agent: BackendView,
    factsheet: FactSheetView,
    event: EventView,
)
    requires
        agent.attributes.state != AgentState::Error,
    ensures
        backend_step(agent, factsheet, event).agent.attributes.state != AgentState::Error,
{
}

/// Every step keeps a consistent agent consistent.
pub proof fn lemma_backend_step_keeps_consistency(
    agent: BackendView,
    factsheet: FactSheetView,
    event: EventView,
)
    requires
        backend_consistent(agent),
    ensures
        backend_consistent(backend_step(agent, factsheet, event).agent),
{
}

/// What holds of a backend developer and the fact sheet that it works
/// on, in every run from a new agent: the agent is consistent, and while
/// it has not given up
/// - it waits to be started only before its first step and at its end,
/// - the fact sheet holds code as soon as `Discovery` is left,
/// - the endpoints are probed and extracted only after a build that
///   succeeded, so no bug is counted then,
/// - the fact sheet holds the selected endpoints while they are probed,
/// - and at `Finished` the fact sheet holds code and endpoints, no bug is
///   counted and the server does not run.
pub open spec fn backend_on_course(agent: BackendView, factsheet: FactSheetView) -> bool {
    let state = agent.attributes.state;
    &&& backend_consistent(agent)
    &&& agent.failure is None ==> {
        &&& agent.waiting == Waiting::Start ==> state == AgentState::Discovery || state
            == AgentState::Finished
        &&& agent.waiting == Waiting::CodeTemplate ==> agent.bug_count == 0
        &&& state == AgentState::Discovery ==> agent.bug_count == 0
        &&& state != AgentState::Discovery ==> factsheet.backend_code is Some
        &&& (agent.waiting == Waiting::MainSource || agent.waiting == Waiting::Endpoints
            || agent.waiting == Waiting::Routes || agent.waiting == Waiting::Probe)
            ==> agent.bug_count == 0
        &&& agent.waiting == Waiting::Probe ==> factsheet.api_endpoint_schema is Some
        &&& state == AgentState::Finished ==> factsheet.api_endpoint_schema is Some
            && agent.bug_count == 0 && !agent.server_running
    }
}

/// A new agent is on course on every fact sheet, and every step keeps an
/// agent on course.
pub proof fn lemma_backend_step_stays_on_course(
    agent: BackendView,
    factsheet: FactSheetView,
    event: EventView,
)
    requires
        backend_on_course(agent, factsheet),
    ensures
        backend_on_course(initial_backend(), factsheet),
        backend_on_course(
            backend_step(agent, factsheet, event).agent,
            backend_step(agent, factsheet, event).factsheet,
        ),
{
}

/// Every run from a new agent stays on course, whatever the events are:
/// so the fact sheet holds code only after the model wrote it, holds
/// endpoints only after a build succeeded and they were extracted, and
/// holds both when the agent is `Finished`.
pub proof fn lemma_backend_run_stays_on_course(
    agent: BackendView,
    factsheet: FactSheetView,
    events: Seq<EventView>,
)
    requires
        backend_on_course(agent, factsheet),
    ensures
        backend_on_course(
            backend_run(agent, factsheet, events).agent,
            backend_run(agent, factsheet, events).factsheet,
        ),
    decreases events.len(),
{
    if events.len() > 0 {
        lemma_backend_step_stays_on_course(agent, factsheet, events.first());
        let first = backend_step(agent, factsheet, events.first());
        lemma_backend_run_stays_on_course(first.agent, first.factsheet, events.drop_first());
    }
}

/// No agent is finished, and no agent has given up, while its server
/// runs: the server is killed on every way out of the unit tests.
pub proof fn lemma_backend_server_stopped_at_exit(
    agent: BackendView,
    factsheet: FactSheetView,
    event: EventView,
)
    ensures
        ({
            let after = backend_step(agent, factsheet, event);
            (after.step.next is Finished || after.step.next is Aborted) && (agent.failure is None
                && agent.attributes.state != AgentState::Finished) ==> !after.agent.server_running
        }),
{
}

/// `Finished` is terminal: a step of a finished agent changes neither the
/// agent nor the fact sheet and asks for no effect.
pub proof fn lemma_backend_finished_is_terminal(
    agent: BackendView,
    factsheet: FactSheetView,
    event: EventView,
)
    requires
        agent.attributes.state == AgentState::Finished,
    ensures
        backend_step(agent, factsheet, event).agent == agent,
        backend_step(agent, factsheet, event).factsheet == factsheet,
        backend_step(agent, factsheet, event).step.effects == Seq::<EffectView>::empty(),
        agent.failure is None ==> backend_step(agent, factsheet, event).step.next
            == NextView::Finished,
{
}

/// Once `Finished` is reached no run visits another state: whatever
/// events follow, the agent and the fact sheet stay as they are and no
/// effect is asked for.
pub proof fn lemma_backend_finished_forever(
    agent: BackendView,
    factsheet: FactSheetView,
    events: Seq<EventView>,
)
    requires
        agent.attributes.state == AgentState::Finished,
    ensures
        backend_run(agent, factsheet, events).agent == agent,
        backend_run(agent, factsheet, events).factsheet == factsheet,
        backend_run(agent, factsheet, events).effects == Seq::<EffectView>::empty(),
    decreases events.len(),
{
    if events.len() > 0 {
        lemma_backend_finished_is_terminal(agent, factsheet, events.first());
        lemma_backend_finished_forever(agent, factsheet, events.drop_first());
        assert(Seq::<EffectView>::empty() + Seq::<EffectView>::empty() =~= Seq::<
            EffectView,
        >::empty());
    }
}

/// The round of `Working` without bugs. The code that the model wrote
/// in `Discovery` opens it: the agent asks for an improved version, with
/// the description of the improving function and a context that is built
/// from the fact sheet with that code. The answer of the model is then
/// saved and written to the fact sheet, the agent goes on to the unit
/// tests, and the bug count and the error text stay as they are.
pub proof fn lemma_backend_improves_the_code(
    agent: BackendView,
    factsheet: FactSheetView,
    first_code: Seq<char>,
    improved_code: Seq<char>,
)
    requires
        agent.failure is None,
        agent.attributes.state == AgentState::Discovery,
        agent.waiting == Waiting::Code,
        agent.bug_count == 0,
    ensures
        ({
            let asked = backend_step(agent, factsheet, EventView::ModelReplied(Ok(first_code)));
            let stored = FactSheetView { backend_code: Some(first_code), ..factsheet };
            let answered = backend_step(
                asked.agent,
                asked.factsheet,
                EventView::ModelReplied(Ok(improved_code)),
            );
            &&& asked.factsheet == stored
            &&& asked.agent.attributes.state == AgentState::Working
            &&& asked.step.next == NextView::Await(
                RequestView::AskModel(
                    ModelRequestView {
                        context: improved_code_context(stored),
                        position: agent.attributes.position,
                        operation: AiFunction::PrintImprovedWebserverCode,
                        template: AiFunction::PrintImprovedWebserverCode,
                    },
                ),
            )
            &&& answered.factsheet == (FactSheetView {
                backend_code: Some(improved_code),
                ..factsheet
            })
            &&& answered.step.effects.len() == 2
            &&& answered.step.effects[0] == EffectView::SaveBackendCode(improved_code)
            &&& answered.step.next == NextView::Await(RequestView::ConfirmSafeCode)
            &&& answered.agent.attributes.state == AgentState::UnitTesting
            &&& answered.agent.bug_count == agent.bug_count
            &&& answered.agent.bug_errors == agent.bug_errors
            &&& answered.agent.failure is None
        }),
{
}

/// A failed build within the budget sends the agent back to `Working`
/// with the bug count raised by one and the error text kept; the agent
/// then asks the model for a fix. A failed build beyond the budget makes
/// the agent give up. With a budget of two a third failure in a row is
/// the first that is fatal.
pub proof fn lemma_backend_failed_build(
    agent: BackendView,
    factsheet: FactSheetView,
    errors: Seq<char>,
)
    requires
        agent.failure is None,
        agent.attributes.state == AgentState::UnitTesting,
        agent.waiting == Waiting::Build,
        agent.bug_count <= BUG_BUDGET,
    ensures
        ({
            let after = backend_step(agent, factsheet, EventView::BuildFinished(Err(errors)));
            &&& after.agent.bug_count == agent.bug_count + 1
            &&& after.agent.bug_errors == Some(errors)
            &&& after.factsheet == factsheet
            &&& agent.bug_count < BUG_BUDGET ==> {
                &&& after.agent.attributes.state == AgentState::Working
                &&& after.agent.failure is None
                &&& after.step.next matches NextView::Await(RequestView::AskModel(_))
            }
            &&& agent.bug_count == BUG_BUDGET ==> {
                &&& after.agent.failure == Some(AgentErrorView::TooManyBugs)
                &&& after.step.next == NextView::Aborted(AgentErrorView::TooManyBugs)
            }
        }),
{
}

/// A build that succeeds clears the bug count.
pub proof fn lemma_backend_passed_build(agent: BackendView, factsheet: FactSheetView)
    requires
        agent.failure is None,
        agent.attributes.state == AgentState::UnitTesting,
        agent.waiting == Waiting::Build,
    ensures
        backend_step(agent, factsheet, EventView::BuildFinished(Ok(()))).agent.bug_count == 0,
        backend_step(agent, factsheet, EventView::BuildFinished(Ok(()))).agent.failure is None,
{
}

/// The events of one round in which the build fails and the user agrees
/// to the next build: the failure, the fixed code, the consent.
pub open spec fn failed_round(errors: Seq<char>, fixed_code: Seq<char>) -> Seq<EventView> {
    seq![
        EventView::BuildFinished(Err(errors)),
        EventView::ModelReplied(Ok(fixed_code)),
        EventView::Confirmed(true),
    ]
}

/// A run over two lists of events, one after the other, is the run over
/// the second list from where the run over the first list ends.
pub proof fn lemma_backend_run_append(
    agent: BackendView,
    factsheet: FactSheetView,
    first: Seq<EventView>,
    second: Seq<EventView>,
)
    ensures
        ({
            let before = backend_run(agent, factsheet, first);
            let after = backend_run(before.agent, before.factsheet, second);
            let whole = backend_run(agent, factsheet, first + second);
            &&& whole.agent == after.agent
            &&& whole.factsheet == after.factsheet
            &&& whole.effects == before.effects + after.effects
        }),
    decreases first.len(),
{
    if first.len() == 0 {
        assert(first + second =~= second);
        assert(Seq::<EffectView>::empty() + backend_run(agent, factsheet, second).effects
            =~= backend_run(agent, factsheet, second).effects);
    } else {
        let step = backend_step(agent, factsheet, first.first());
        assert((first + second).first() == first.first());
        assert((first + second).drop_first() =~= first.drop_first() + second);
        lemma_backend_run_append(step.agent, step.factsheet, first.drop_first(), second);
        let before = backend_run(agent, factsheet, first);
        let after = backend_run(before.agent, before.factsheet, second);
        let rest = backend_run(step.agent, step.factsheet, first.drop_first());
        assert(step.step.effects + (rest.effects + after.effects) =~= (step.step.effects
            + rest.effects) + after.effects);
    }
}

/// One failed round within the budget brings the agent back to the build
/// with one more bug counted, the error text kept and the fix stored.
pub proof fn lemma_backend_failed_round(
    agent: BackendView,
    factsheet: FactSheetView,
    errors: Seq<char>,
    fixed_code: Seq<char>,
)
    requires
        agent.failure is None,
        agent.attributes.state == AgentState::UnitTesting,
        agent.waiting == Waiting::Build,
        agent.bug_count < BUG_BUDGET,
    ensures
        ({
            let run = backend_run(agent, factsheet, failed_round(errors, fixed_code));
            &&& run.agent.failure is None
            &&& run.agent.attributes.state == AgentState::UnitTesting
            &&& run.agent.waiting == Waiting::Build
            &&& run.agent.bug_count == agent.bug_count + 1
            &&& run.agent.bug_errors == Some(errors)
            &&& run.factsheet.backend_code == Some(fixed_code)
        }),
{
    let e0 = failed_round(errors, fixed_code);
    let s1 = backend_step(agent, factsheet, e0.first());
    let e1 = e0.drop_first();
    let s2 = backend_step(s1.agent, s1.factsheet, e1.first());
    let e2 = e1.drop_first();
    let s3 = backend_step(s2.agent, s2.factsheet, e2.first());
    let e3 = e2.drop_first();
    assert(e3.len() == 0);
    assert(e0.first() == EventView::BuildFinished(Err(errors)));
    assert(e1.first() == EventView::ModelReplied(Ok(fixed_code)));
    assert(e2.first() == EventView::Confirmed(true));
    assert(s1.agent.attributes.state == AgentState::Working && s1.agent.waiting == Waiting::Code
        && s1.agent.failure is None && s1.agent.bug_count == agent.bug_count + 1
        && s1.agent.bug_errors == Some(errors));
    assert(s2.agent.attributes.state == AgentState::UnitTesting && s2.agent.waiting
        == Waiting::Consent && s2.agent.failure is None && s2.agent.bug_count == agent.bug_count
        + 1 && s2.agent.bug_errors == Some(errors) && s2.factsheet.backend_code == Some(
        fixed_code,
    ));
    assert(s3.agent.waiting == Waiting::Build && s3.agent.failure is None
        && s3.agent.attributes.state == AgentState::UnitTesting && s3.agent.bug_count
        == agent.bug_count + 1 && s3.agent.bug_errors == Some(errors) && s3.factsheet
        == s2.factsheet);
    assert(backend_run(s3.agent, s3.factsheet, e3).agent == s3.agent);
    assert(backend_run(s3.agent, s3.factsheet, e3).factsheet == s3.factsheet);
    assert(backend_run(s2.agent, s2.factsheet, e2).agent == s3.agent);
    assert(backend_run(s2.agent, s2.factsheet, e2).factsheet == s3.factsheet);
    assert(backend_run(s1.agent, s1.factsheet, e1).agent == s3.agent);
    assert(backend_run(s1.agent, s1.factsheet, e1).factsheet == s3.factsheet);
}

/// Three failing builds in a row are fatal, two are not: an agent without
/// bugs that waits for a build is back at the build, with two bugs
/// counted, after two failed rounds, and gives up at the third failure.
pub proof fn lemma_backend_three_failures_are_fatal(
    agent: BackendView,
    factsheet: FactSheetView,
    first_errors: Seq<char>,
    first_fix: Seq<char>,
    second_errors: Seq<char>,
    second_fix: Seq<char>,
    third_errors: Seq<char>,
)
    requires
        agent.failure is None,
        agent.attributes.state == AgentState::UnitTesting,
        agent.waiting == Waiting::Build,
        agent.bug_count == 0,
    ensures
        ({
            let two_rounds = backend_run(
                agent,
                factsheet,
                failed_round(first_errors, first_fix) + failed_round(second_errors, second_fix),
            );
            let third = backend_step(
                two_rounds.agent,
                two_rounds.factsheet,
                EventView::BuildFinished(Err(third_errors)),
            );
            &&& two_rounds.agent.failure is None
            &&& two_rounds.agent.bug_count == 2
            &&& two_rounds.agent.attributes.state == AgentState::UnitTesting
            &&& two_rounds.agent.waiting == Waiting::Build
            &&& third.agent.failure == Some(AgentErrorView::TooManyBugs)
            &&& third.agent.bug_count == 3
            &&& third.step.next == NextView::Aborted(AgentErrorView::TooManyBugs)
        }),
{
    let first = failed_round(first_errors, first_fix);
    let second = failed_round(second_errors, second_fix);
    lemma_backend_failed_round(agent, factsheet, first_errors, first_fix);
    let one_round = backend_run(agent, factsheet, first);
    lemma_backend_failed_round(one_round.agent, one_round.factsheet, second_errors, second_fix);
    lemma_backend_run_append(agent, factsheet, first, second);
    let two_rounds = backend_run(agent, factsheet, first + second);
    lemma_backend_failed_build(two_rounds.agent, two_rounds.factsheet, third_errors);
}

/// The events of a healthy server: status 200 for each of `count` probes.
pub open spec fn healthy_probes(count: nat) -> Seq<EventView> {
    Seq::new(count, |i: int| EventView::Probed(Ok(200u16)))
}

/// A healthy server: where every route that is left answers with 200, the
/// agent finishes with its server killed, and none of the effects of the
/// run prints an issue.
pub proof fn lemma_backend_healthy_server_finishes(agent: BackendView, factsheet: FactSheetView)
    requires
        agent.failure is None,
        agent.attributes.state == AgentState::UnitTesting,
        agent.waiting == Waiting::Probe,
        agent.probe_index < agent.probe_routes.len(),
    ensures
        ({
            let run = backend_run(
                agent,
                factsheet,
                healthy_probes((agent.probe_routes.len() - agent.probe_index) as nat),
            );
            &&& run.agent.attributes.state == AgentState::Finished
            &&& run.agent.failure is None
            &&& !run.agent.server_running
            &&& run.factsheet == factsheet
            &&& forall|k: int| 0 <= k < run.effects.len() ==> !is_issue(#[trigger] run.effects[k])
        }),
    decreases agent.probe_routes.len() - agent.probe_index,
{
    let count = (agent.probe_routes.len() - agent.probe_index) as nat;
    let events = healthy_probes(count);
    let first = backend_step(agent, factsheet, events.first());
    assert(events.first() == EventView::Probed(Ok(200u16)));
    assert(events.drop_first() =~= healthy_probes((count - 1) as nat));
    if count == 1 {
        assert(first.agent.attributes.state == AgentState::Finished);
        lemma_backend_finished_forever(first.agent, first.factsheet, events.drop_first());
        assert(first.step.effects + Seq::<EffectView>::empty() =~= first.step.effects);
    } else {
        lemma_backend_healthy_server_finishes(first.agent, first.factsheet);
        let rest = backend_run(first.agent, first.factsheet, events.drop_first());
        let run = backend_run(agent, factsheet, events);
        assert(run.effects == first.step.effects + rest.effects);
        assert forall|k: int| 0 <= k < run.effects.len() implies !is_issue(
            #[trigger] run.effects[k],
        ) by {
            if k >= first.step.effects.len() {
                assert(run.effects[k] == rest.effects[k - first.step.effects.len()]);
            }
        }
    }
}

/// The whole of the probing, from the decoded routes on: with a server
/// that answers 200 for every selected route the agent finishes, the
/// server is killed, no effect prints an issue, and the fact sheet holds
/// the selected routes.
pub proof fn lemma_backend_healthy_unit_test(
    agent: BackendView,
    factsheet: FactSheetView,
    routes: Seq<RouteView>,
)
    requires
        agent.failure is None,
        agent.attributes.state == AgentState::UnitTesting,
        agent.waiting == Waiting::Routes,
    ensures
        ({
            let run = backend_run(
                agent,
                factsheet,
                seq![EventView::RoutesDecoded(Some(routes))] + healthy_probes(
                    selected_routes(routes).len(),
                ),
            );
            &&& run.agent.attributes.state == AgentState::Finished
            &&& run.agent.failure is None
            &&& !run.agent.server_running
            &&& run.factsheet.api_endpoint_schema == Some(selected_routes(routes))
            &&& forall|k: int| 0 <= k < run.effects.len() ==> !is_issue(#[trigger] run.effects[k])
        }),
{
    let probes = healthy_probes(selected_routes(routes).len());
    let events = seq![EventView::RoutesDecoded(Some(routes))] + probes;
    let first = backend_step(agent, factsheet, events.first());
    assert(events.first() == EventView::RoutesDecoded(Some(routes)));
    assert(events.drop_first() =~= probes);
    let rest = backend_run(first.agent, first.factsheet, probes);
    if selected_routes(routes).len() == 0 {
        lemma_backend_finished_forever(first.agent, first.factsheet, probes);
    } else {
        lemma_backend_healthy_server_finishes(first.agent, first.factsheet);
    }
    let run = backend_run(agent, factsheet, events);
    assert(run.effects == first.step.effects + rest.effects);
    assert forall|k: int| 0 <= k < run.effects.len() implies !is_issue(
        #[trigger] run.effects[k],
    ) by {
        if k >= first.step.effects.len() {
            assert(run.effects[k] == rest.effects[k - first.step.effects.len()]);
        }
    }
}

/// What a step may change of the fact sheet. The description, the scope
/// and the URLs are never changed. The code is changed only when the
/// model answers the request for code, and then holds that answer. The
/// endpoints are changed only when the routes were decoded, and then hold
/// the selected ones.
pub proof fn lemma_backend_factsheet_changes(
    agent: BackendView,
    factsheet: FactSheetView,
    event: EventView,
)
    ensures
        ({
            let after = backend_step(agent, factsheet, event).factsheet;
            let live = agent.failure is None && agent.attributes.state != AgentState::Finished;
            &&& after.project_description == factsheet.project_description
            &&& after.project_scope == factsheet.project_scope
            &&& after.external_urls == factsheet.external_urls
            &&& after.backend_code != factsheet.backend_code ==> {
                &&& live
                &&& agent.waiting == Waiting::Code
                &&& event matches EventView::ModelReplied(Ok(code))
                &&& after.backend_code == Some(code)
            }
            &&& after.api_endpoint_schema != factsheet.api_endpoint_schema ==> {
                &&& live
                &&& agent.waiting == Waiting::Routes
                &&& event matches EventView::RoutesDecoded(Some(routes))
                &&& after.api_endpoint_schema == Some(selected_routes(routes))
            }
        }),
{
}

/// An agent that has given up stays as it is: every further step leaves
/// the agent and the fact sheet unchanged, asks for no effect and reports
/// the same failure.
pub proof fn lemma_backend_failure_is_final(
    agent: BackendView,
    factsheet: FactSheetView,
    event: EventView,
)
    requires
        agent.failure is Some,
    ensures
        backend_step(agent, factsheet, event).agent == agent,
        backend_step(agent, factsheet, event).factsheet == factsheet,
        backend_step(agent, factsheet, event).step.effects == Seq::<EffectView>::empty(),
        backend_step(agent, factsheet, event).step.next == NextView::Aborted(
            agent.failure->Some_0,
        ),
{
}

/// The failures that end the work of a live agent at once, none of them
/// retried: the user declines, the gateway has failed for a request, or
/// the endpoints cannot be decoded. The fact sheet stays as it is.
pub proof fn lemma_backend_fatal_answers(
    agent: BackendView,
    factsheet: FactSheetView,
    event: EventView,
)
    requires
        agent.failure is None,
        agent.attributes.state != AgentState::Finished,
        agent.attributes.state != AgentState::Error,
    ensures
        ({
            let after = backend_step(agent, factsheet, event);
            &&& agent.waiting == Waiting::Consent && event == EventView::Confirmed(false)
                ==> after.step.next == NextView::Aborted(AgentErrorView::Declined)
            &&& (agent.waiting == Waiting::Code || agent.waiting == Waiting::Endpoints)
                ==> (event matches EventView::ModelReplied(Err(error)) ==> after.step.next
                == NextView::Aborted(AgentErrorView::Gateway(error)))
            &&& agent.waiting == Waiting::Routes && event == EventView::RoutesDecoded(None)
                ==> after.step.next == NextView::Aborted(AgentErrorView::Decode)
            &&& after.step.next is Aborted ==> after.factsheet == factsheet && after.agent.failure
                is Some && !after.agent.server_running
        }),
{
}

/// No outcome of a probe ends the work of the agent: whatever the server
/// answers, and whether it answers at all, the agent goes on to the next
/// route or finishes, and it never gives up. A status other than 200
/// leaves the server running; a failed connection has it killed.
pub proof fn lemma_backend_probe_never_aborts(
    agent: BackendView,
    factsheet: FactSheetView,
    outcome: Result<u16, Seq<char>>,
)
    requires
        agent.failure is None,
        agent.attributes.state == AgentState::UnitTesting,
        agent.waiting == Waiting::Probe,
        agent.probe_index < agent.probe_routes.len(),
    ensures
        ({
            let after = backend_step(agent, factsheet, EventView::Probed(outcome));
            let last = agent.probe_index + 1 == agent.probe_routes.len();
            &&& after.agent.failure is None
            &&& after.factsheet == factsheet
            &&& after.agent.probe_index == agent.probe_index + 1
            &&& last ==> after.step.next is Finished && after.agent.attributes.state
                == AgentState::Finished && !after.agent.server_running
            &&& !last ==> after.agent.attributes.state == AgentState::UnitTesting && (
            after.step.next matches NextView::Await(RequestView::ProbeUrl(_)))
            &&& !last && outcome is Ok ==> after.agent.server_running == agent.server_running
            &&& outcome is Err ==> !after.agent.server_running && after.step.effects.len() >= 2
                && after.step.effects[0] == EffectView::StopServer && is_issue(
                after.step.effects[1],
            )
            &&& outcome matches Ok(status) ==> (status != 200 ==> after.step.effects.len() >= 1
                && is_issue(after.step.effects[0]))
        }),
{
}

} // verus!
