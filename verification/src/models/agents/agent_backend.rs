use crate::helpers::command_line::PrintCommand;
use crate::helpers::text::{join_text, optional_text, render_optional_text, same_text};
use crate::models::agent_basic::basic_agent::{AgentState, BasicAgent, BasicAgentView};
use crate::models::agents::agent_protocol::{
    AgentError, AgentErrorView, AiFunction, Effect, EffectView, Event, EventView, ModelRequest,
    failure_text_view, line, no_effects, print_effect, push_effect, ModelRequestView, Next,
    NextView, Request, RequestView, Step, StepView,
};
use crate::models::agents::agent_traits::{
    clone_routes, factsheet_text, render_factsheet, FactSheet, FactSheetView, RouteObject,
    RouteView,
};
use vstd::prelude::*;
use vstd::string::StringExecFns;

verus! {

/// The answer that the backend developer waits for.
#[derive(PartialEq, Eq, Debug, Clone, Copy, Structural)]
pub enum Waiting {
    /// Nothing is asked yet: the agent waits to be started.
    Start,
    /// The contents of the code template.
    CodeTemplate,
    /// Generated, improved or fixed code from the model.
    Code,
    /// The consent of the user to run the code.
    Consent,
    /// The outcome of the build.
    Build,
    /// The generated source of the server.
    MainSource,
    /// The endpoints of the server, as the model lists them.
    Endpoints,
    /// The decoded endpoints.
    Routes,
    /// The outcome of the probe of one route.
    Probe,
}

/// The number of build failures after which the agent gives up is more
/// than this.
pub const BUG_BUDGET: u8 = 2;

/// The seconds that the server gets to come up before it is probed.
pub const SETTLE_SECONDS: u64 = 5;

/// What a backend developer holds, with its texts as sequences.
pub struct BackendView {
    pub attributes: BasicAgentView,
    pub bug_errors: Option<Seq<char>>,
    pub bug_count: u8,
    pub waiting: Waiting,
    pub endpoint_text: Seq<char>,
    pub probe_routes: Seq<RouteView>,
    pub probe_index: nat,
    pub server_running: bool,
    pub failure: Option<AgentErrorView>,
}

/// What one step of the backend developer leaves: the agent, the fact
/// sheet and what the driver is to do.
pub struct BackendOutcome {
    pub agent: BackendView,
    pub factsheet: FactSheetView,
    pub step: StepView,
}

/// The context of the request for the first version of the code.
pub open spec fn initial_code_context(template: Seq<char>, description: Seq<char>) -> Seq<char> {
    "CODE TEMPLATE: "@ + template + " \n PROJECT_DESCRIPTION: "@ + description + " \n"@
}

/// The context of the request for an improved version of the code.
pub open spec fn improved_code_context(factsheet: FactSheetView) -> Seq<char> {
    "CODE TEMPLATE: "@ + optional_text(factsheet.backend_code)
        + " \n PROJECT_DESCRIPTION: "@ + factsheet_text(factsheet) + " \n"@
}

/// The context of the request for a fix of code that does not build.
pub open spec fn fix_code_context(code: Option<Seq<char>>, errors: Option<Seq<char>>) -> Seq<
    char,
> {
    "BROKEN CODE: "@ + optional_text(code) + " \n ERROR_BUGS: "@ + optional_text(
        errors,
    ) + " \n \n    THIS FUNCTION ONLY OUTPUTS THE CODE . JUST OUTPUT THE CODE"@
}

/// The context of the request for the endpoints of the code.
pub open spec fn endpoint_context(source: Seq<char>) -> Seq<char> {
    "CODE INPUT "@ + source
}

/// The URL at which the test server answers for `route`.
pub open spec fn probe_url(route: Seq<char>) -> Seq<char> {
    "http://localhost:8080"@ + route
}

/// Whether a route is probed: only `get` routes that are not dynamic are.
pub open spec fn probe_candidate(route: RouteView) -> bool {
    route.method == "get"@ && route.is_route_dynamic == "false"@
}

/// The routes that are probed, in the order in which they were listed.
pub open spec fn selected_routes(routes: Seq<RouteView>) -> Seq<RouteView> {
    routes.filter(|route: RouteView| probe_candidate(route))
}

/// The bug count after one more failed build. The counter stops at the
/// largest value that it can hold.
pub open spec fn raised_bug_count(count: u8) -> u8 {
    if count < u8::MAX {
        (count + 1) as u8
    } else {
        count
    }
}

/// The agent gives up with `error`, after the effects `effects`. A server
/// that still runs is killed first, so that no agent gives up with its
/// server alive.
pub open spec fn backend_abort(
    agent: BackendView,
    factsheet: FactSheetView,
    effects: Seq<EffectView>,
    error: AgentErrorView,
) -> BackendOutcome {
    BackendOutcome {
        agent: BackendView { failure: Some(error), server_running: false, ..agent },
        factsheet,
        step: StepView {
            effects: if agent.server_running {
                effects.push(EffectView::StopServer)
            } else {
                effects
            },
            next: NextView::Aborted(error),
        },
    }
}

/// The request that opens the state `Working`: for an improved version
/// while no build has failed, else for a fix of the last failure.
pub open spec fn working_request(agent: BackendView, factsheet: FactSheetView)
    -> ModelRequestView {
    if agent.bug_count == 0 {
        ModelRequestView {
            context: improved_code_context(factsheet),
            position: agent.attributes.position,
            operation: AiFunction::PrintImprovedWebserverCode,
            template: AiFunction::PrintImprovedWebserverCode,
        }
    } else {
        ModelRequestView {
            context: fix_code_context(factsheet.backend_code, agent.bug_errors),
            position: agent.attributes.position,
            operation: AiFunction::PrintFixedCode,
            template: AiFunction::PrintFixedCode,
        }
    }
}

/// The agent enters `Working` and asks the model for the next version.
pub open spec fn backend_begin_working(
    agent: BackendView,
    factsheet: FactSheetView,
    effects: Seq<EffectView>,
) -> BackendOutcome {
    BackendOutcome {
        agent: BackendView {
            attributes: BasicAgentView { state: AgentState::Working, ..agent.attributes },
            waiting: Waiting::Code,
            ..agent
        },
        factsheet,
        step: StepView {
            effects,
            next: NextView::Await(RequestView::AskModel(working_request(agent, factsheet))),
        },
    }
}

/// The agent enters `UnitTesting` and asks the user for consent.
pub open spec fn backend_begin_testing(
    agent: BackendView,
    factsheet: FactSheetView,
    effects: Seq<EffectView>,
) -> BackendOutcome {
    BackendOutcome {
        agent: BackendView {
            attributes: BasicAgentView { state: AgentState::UnitTesting, ..agent.attributes },
            waiting: Waiting::Consent,
            ..agent
        },
        factsheet,
        step: StepView {
            effects: effects.push(
                line(
                    PrintCommand::UnitTest,
                    agent.attributes.position,
                    "backend code unit testing: Requesting user input"@,
                ),
            ),
            next: NextView::Await(RequestView::ConfirmSafeCode),
        },
    }
}

/// The agent probes the next route, or, when none is left, saves the
/// endpoints, kills the server and finishes.
pub open spec fn backend_continue_probing(
    agent: BackendView,
    factsheet: FactSheetView,
    effects: Seq<EffectView>,
) -> BackendOutcome {
    if agent.probe_index < agent.probe_routes.len() {
        let route = agent.probe_routes[agent.probe_index as int].route;
        BackendOutcome {
            agent: BackendView { waiting: Waiting::Probe, ..agent },
            factsheet,
            step: StepView {
                effects: effects.push(
                    line(
                        PrintCommand::UnitTest,
                        agent.attributes.position,
                        "Testing endpoint '"@ + route + "'..."@,
                    ),
                ),
                next: NextView::Await(RequestView::ProbeUrl(probe_url(route))),
            },
        }
    } else {
        BackendOutcome {
            agent: BackendView {
                attributes: BasicAgentView { state: AgentState::Finished, ..agent.attributes },
                waiting: Waiting::Start,
                server_running: false,
                ..agent
            },
            factsheet,
            step: StepView {
                effects: effects.push(EffectView::SaveApiEndpoints(agent.endpoint_text)).push(
                    line(
                        PrintCommand::UnitTest,
                        agent.attributes.position,
                        "Backend testing is complete..."@,
                    ),
                ).push(EffectView::StopServer),
                next: NextView::Finished,
            },
        }
    }
}

/// What the agent does with the outcome of the probe of the current route.
/// A status other than 200 is a warning. A failed connection kills the
/// server and is reported; the routes that are left are probed all the
/// same.
pub open spec fn backend_after_probe(
    agent: BackendView,
    factsheet: FactSheetView,
    outcome: Result<u16, Seq<char>>,
) -> BackendOutcome {
    let route = agent.probe_routes[agent.probe_index as int].route;
    let position = agent.attributes.position;
    let advanced = BackendView { probe_index: agent.probe_index + 1, ..agent };
    match outcome {
        Ok(status) => {
            let effects = if status != 200 {
                Seq::<EffectView>::empty().push(
                    line(
                        PrintCommand::Issue,
                        position,
                        "WARNING ! Failed to call backend url endpoint "@ + route,
                    ),
                )
            } else {
                Seq::<EffectView>::empty()
            };
            backend_continue_probing(advanced, factsheet, effects)
        },
        Err(failure) => {
            let effects = Seq::<EffectView>::empty().push(EffectView::StopServer).push(
                line(PrintCommand::Issue, position, "Error checking backend "@ + failure),
            );
            backend_continue_probing(
                BackendView { server_running: false, ..advanced },
                factsheet,
                effects,
            )
        },
    }
}

/// What the agent does with the outcome of a build. A success clears the
/// bug count. A failure raises it and keeps the error text; above the
/// budget the agent gives up, else it goes back to `Working`.
pub open spec fn backend_after_build(
    agent: BackendView,
    factsheet: FactSheetView,
    outcome: Result<(), Seq<char>>,
) -> BackendOutcome {
    let position = agent.attributes.position;
    match outcome {
        Ok(_) => BackendOutcome {
            agent: BackendView { bug_count: 0, waiting: Waiting::MainSource, ..agent },
            factsheet,
            step: StepView {
                effects: Seq::<EffectView>::empty().push(
                    line(
                        PrintCommand::UnitTest,
                        position,
                        "backend code unit testing: Test server build successful..."@,
                    ),
                ),
                next: NextView::Await(RequestView::ReadExecMain),
            },
        },
        Err(errors) => {
            let counted = BackendView {
                bug_count: raised_bug_count(agent.bug_count),
                bug_errors: Some(errors),
                ..agent
            };
            if counted.bug_count > BUG_BUDGET {
                backend_abort(
                    counted,
                    factsheet,
                    Seq::<EffectView>::empty().push(
                        line(
                            PrintCommand::Issue,
                            position,
                            "backend code unit testing: Too may bugs found in code"@,
                        ),
                    ),
                    AgentErrorView::TooManyBugs,
                )
            } else {
                backend_begin_working(counted, factsheet, Seq::empty())
            }
        },
    }
}

/// What the agent does with the decoded routes: it keeps the ones to
/// probe, writes them to the fact sheet, has the server started and
/// begins to probe.
pub open spec fn backend_after_routes(
    agent: BackendView,
    factsheet: FactSheetView,
    routes: Seq<RouteView>,
) -> BackendOutcome {
    let position = agent.attributes.position;
    let selected = selected_routes(routes);
    let effects = Seq::<EffectView>::empty().push(
        line(
            PrintCommand::UnitTest,
            position,
            "backend code unit testing: Starting web server..."@,
        ),
    ).push(EffectView::StartServer).push(
        line(
            PrintCommand::UnitTest,
            position,
            "backend code unit testing: Launching test on server in 4 seconds..."@,
        ),
    ).push(EffectView::Settle(SETTLE_SECONDS));
    backend_continue_probing(
        BackendView { probe_routes: selected, probe_index: 0, server_running: true, ..agent },
        FactSheetView { api_endpoint_schema: Some(selected), ..factsheet },
        effects,
    )
}

/// What the agent does with code that the model has written: the code is
/// saved and written to the fact sheet, and the agent moves on, from
/// `Discovery` to `Working` and from `Working` to `UnitTesting`.
pub open spec fn backend_after_code(agent: BackendView, factsheet: FactSheetView, code: Seq<char>)
    -> BackendOutcome {
    let stored = FactSheetView { backend_code: Some(code), ..factsheet };
    let effects = Seq::<EffectView>::empty().push(EffectView::SaveBackendCode(code));
    if agent.attributes.state == AgentState::Discovery {
        backend_begin_working(agent, stored, effects)
    } else {
        backend_begin_testing(agent, stored, effects)
    }
}

/// What the agent does when it is started.
pub open spec fn backend_start(agent: BackendView, factsheet: FactSheetView) -> BackendOutcome {
    match agent.attributes.state {
        AgentState::Discovery => BackendOutcome {
            agent: BackendView { waiting: Waiting::CodeTemplate, ..agent },
            factsheet,
            step: StepView {
                effects: Seq::empty(),
                next: NextView::Await(RequestView::ReadCodeTemplate),
            },
        },
        AgentState::Working => backend_begin_working(agent, factsheet, Seq::empty()),
        _ => backend_begin_testing(agent, factsheet, Seq::empty()),
    }
}

/// The transition function of the backend developer: what an event makes
/// of the agent and the fact sheet, and what the driver is to do next.
///
/// An agent that has given up stays as it is and reports its failure
/// again. An agent that is `Finished` stays as it is. An agent in the
/// state `Error`, which no step enters, gives up. An event that does not
/// answer what the agent waits for makes it give up.
pub open spec fn backend_step(agent: BackendView, factsheet: FactSheetView, event: EventView)
    -> BackendOutcome {
    if agent.failure is Some {
        BackendOutcome {
            agent,
            factsheet,
            step: StepView {
                effects: Seq::empty(),
                next: NextView::Aborted(agent.failure->Some_0),
            },
        }
    } else if agent.attributes.state == AgentState::Finished {
        BackendOutcome {
            agent,
            factsheet,
            step: StepView { effects: Seq::empty(), next: NextView::Finished },
        }
    } else if agent.attributes.state == AgentState::Error {
        backend_abort(agent, factsheet, Seq::empty(), AgentErrorView::UnexpectedEvent)
    } else {
        match (agent.waiting, event) {
            (Waiting::Start, EventView::Start) => backend_start(agent, factsheet),
            (Waiting::CodeTemplate, EventView::FileRead(template)) => BackendOutcome {
                agent: BackendView { waiting: Waiting::Code, ..agent },
                factsheet,
                step: StepView {
                    effects: Seq::empty(),
                    next: NextView::Await(
                        RequestView::AskModel(
                            ModelRequestView {
                                context: initial_code_context(
                                    template,
                                    factsheet.project_description,
                                ),
                                position: agent.attributes.position,
                                operation: AiFunction::PrintBackendWebserverCode,
                                template: AiFunction::PrintBackendWebserverCode,
                            },
                        ),
                    ),
                },
            },
            (Waiting::Code, EventView::ModelReplied(Ok(code))) => backend_after_code(
                agent,
                factsheet,
                code,
            ),
            (Waiting::Code, EventView::ModelReplied(Err(error))) => backend_abort(
                agent,
                factsheet,
                Seq::empty(),
                AgentErrorView::Gateway(error),
            ),
            (Waiting::Consent, EventView::Confirmed(agreed)) => if agreed {
                BackendOutcome {
                    agent: BackendView { waiting: Waiting::Build, ..agent },
                    factsheet,
                    step: StepView {
                        effects: Seq::<EffectView>::empty().push(
                            line(
                                PrintCommand::UnitTest,
                                agent.attributes.position,
                                "backend code unit testing: Building project"@,
                            ),
                        ),
                        next: NextView::Await(RequestView::BuildProject),
                    },
                }
            } else {
                backend_abort(agent, factsheet, Seq::empty(), AgentErrorView::Declined)
            },
            (Waiting::Build, EventView::BuildFinished(outcome)) => backend_after_build(
                agent,
                factsheet,
                outcome,
            ),
            (Waiting::MainSource, EventView::FileRead(source)) => BackendOutcome {
                agent: BackendView { waiting: Waiting::Endpoints, ..agent },
                factsheet,
                step: StepView {
                    effects: Seq::empty(),
                    next: NextView::Await(
                        RequestView::AskModel(
                            ModelRequestView {
                                context: endpoint_context(source),
                                position: agent.attributes.position,
                                operation: AiFunction::PrintRestApiEndpoints,
                                template: AiFunction::PrintRestApiEndpoints,
                            },
                        ),
                    ),
                },
            },
            (Waiting::Endpoints, EventView::ModelReplied(Ok(text))) => BackendOutcome {
                agent: BackendView { waiting: Waiting::Routes, endpoint_text: text, ..agent },
                factsheet,
                step: StepView {
                    effects: Seq::empty(),
                    next: NextView::Await(RequestView::DecodeRoutes(text)),
                },
            },
            (Waiting::Endpoints, EventView::ModelReplied(Err(error))) => backend_abort(
                agent,
                factsheet,
                Seq::empty(),
                AgentErrorView::Gateway(error),
            ),
            (Waiting::Routes, EventView::RoutesDecoded(Some(routes))) => backend_after_routes(
                agent,
                factsheet,
                routes,
            ),
            (Waiting::Routes, EventView::RoutesDecoded(None)) => backend_abort(
                agent,
                factsheet,
                Seq::empty(),
                AgentErrorView::Decode,
            ),
            (Waiting::Probe, EventView::Probed(outcome)) => if agent.probe_index
                < agent.probe_routes.len() {
                backend_after_probe(agent, factsheet, outcome)
            } else {
                backend_abort(agent, factsheet, Seq::empty(), AgentErrorView::UnexpectedEvent)
            },
            _ => backend_abort(agent, factsheet, Seq::empty(), AgentErrorView::UnexpectedEvent),
        }
    }
}

/// The backend developer: it has the model write the code of the server,
/// improve it and fix it until it builds, and then probes the server.
#[derive(Debug)]
pub struct AgentBackendDeveloper {
    attributes: BasicAgent,
    bug_errors: Option<String>,
    bug_count: u8,
    waiting: Waiting,
    endpoint_text: String,
    probe_routes: Vec<RouteObject>,
    probe_index: usize,
    server_running: bool,
    failure: Option<AgentError>,
}

impl View for AgentBackendDeveloper {
    type V = BackendView;

    closed spec fn view(&self) -> BackendView {
        BackendView {
            attributes: self.attributes@,
            bug_errors: self.bug_errors.deep_view(),
            bug_count: self.bug_count,
            waiting: self.waiting,
            endpoint_text: self.endpoint_text@,
            probe_routes: self.probe_routes.deep_view(),
            probe_index: self.probe_index as nat,
            server_running: self.server_running,
            failure: self.failure.deep_view(),
        }
    }
}

/// The backend developer before its first step.
pub open spec fn initial_backend() -> BackendView {
    BackendView {
        attributes: BasicAgentView {
            objective: "Developes backend  code for web server and database"@,
            position: "Backend Developer"@,
            state: AgentState::Discovery,
            memory: Seq::empty(),
        },
        bug_errors: None,
        bug_count: 0,
        waiting: Waiting::Start,
        endpoint_text: Seq::empty(),
        probe_routes: Seq::empty(),
        probe_index: 0,
        server_running: false,
        failure: None,
    }
}

/// Builds the context of the request for the first version of the code.
pub fn build_initial_code_context(template: &str, description: &str) -> (context: String)
    ensures
        context@ == initial_code_context(template@, description@),
{
    let mut context = String::from_str("CODE TEMPLATE: ");
    context.append(template);
    context.append(" \n PROJECT_DESCRIPTION: ");
    context.append(description);
    context.append(" \n");
    context
}

/// Builds the context of the request for an improved version of the code.
pub fn build_improved_code_context(factsheet: &FactSheet) -> (context: String)
    ensures
        context@ == improved_code_context(factsheet@),
{
    let code_text = render_optional_text(&factsheet.backend_code);
    let sheet_text = render_factsheet(factsheet);
    let mut context = String::from_str("CODE TEMPLATE: ");
    context.append(code_text.as_str());
    context.append(" \n PROJECT_DESCRIPTION: ");
    context.append(sheet_text.as_str());
    context.append(" \n");
    context
}

/// Builds the context of the request for a fix of code that does not
/// build.
pub fn build_fix_code_context(code: &Option<String>, errors: &Option<String>) -> (context: String)
    ensures
        context@ == fix_code_context(code.deep_view(), errors.deep_view()),
{
    let code_text = render_optional_text(code);
    let error_text = render_optional_text(errors);
    let mut context = String::from_str("BROKEN CODE: ");
    context.append(code_text.as_str());
    context.append(" \n ERROR_BUGS: ");
    context.append(error_text.as_str());
    context.append(" \n \n    THIS FUNCTION ONLY OUTPUTS THE CODE . JUST OUTPUT THE CODE");
    context
}

/// Builds the context of the request for the endpoints of the code.
pub fn build_endpoint_context(source: &str) -> (context: String)
    ensures
        context@ == endpoint_context(source@),
{
    join_text("CODE INPUT ", source)
}

/// Builds the URL at which the test server answers for `route`.
pub fn build_probe_url(route: &str) -> (url: String)
    ensures
        url@ == probe_url(route@),
{
    join_text("http://localhost:8080", route)
}

/// Whether a route is probed.
pub fn is_probe_candidate(route: &RouteObject) -> (probed: bool)
    ensures
        probed == probe_candidate(route@),
{
    same_text(route.method.as_str(), "get") && same_text(route.is_route_dynamic.as_str(), "false")
}

/// What the filter makes of a list with one more route at its end.
proof fn lemma_selected_push(routes: Seq<RouteView>, route: RouteView)
    ensures
        selected_routes(routes.push(route)) == if probe_candidate(route) {
            selected_routes(routes).push(route)
        } else {
            selected_routes(routes)
        },
{
    reveal(Seq::filter);
    assert(routes.push(route).drop_last() =~= routes);
}

/// Selects the routes to probe: the `get` routes that are not dynamic, in
/// the order of the list.
pub fn select_probe_routes(routes: &Vec<RouteObject>) -> (selected: Vec<RouteObject>)
    ensures
        selected.deep_view() == selected_routes(routes.deep_view()),
{
    let mut selected: Vec<RouteObject> = Vec::new();
    let mut index: usize = 0;
    proof {
        reveal(Seq::filter);
        assert(routes.deep_view().take(0) =~= Seq::<RouteView>::empty());
        assert(selected.deep_view() =~= Seq::<RouteView>::empty());
    }
    while index < routes.len()
        invariant
            index <= routes.len(),
            selected.deep_view() == selected_routes(routes.deep_view().take(index as int)),
        decreases routes.len() - index,
    {
        let ghost before = selected.deep_view();
        proof {
            lemma_selected_push(routes.deep_view().take(index as int), routes[index as int]@);
            assert(routes.deep_view().take(index as int).push(routes[index as int]@)
                =~= routes.deep_view().take(index + 1));
        }
        if is_probe_candidate(&routes[index]) {
            selected.push(routes[index].clone());
            assert(selected.deep_view() =~= before.push(routes[index as int]@));
        }
        index += 1;
    }
    assert(routes.deep_view().take(index as int) =~= routes.deep_view());
    selected
}

impl AgentBackendDeveloper {
    /// A backend developer that has not begun: state `Discovery`, no bug
    /// counted, nothing asked.
    pub fn new() -> (agent: Self)
        ensures
            agent@ == initial_backend(),
    {
        let attributes = BasicAgent::new(
            String::from_str("Developes backend  code for web server and database"),
            String::from_str("Backend Developer"),
        );
        let agent = AgentBackendDeveloper {
            attributes,
            bug_errors: None,
            bug_count: 0,
            waiting: Waiting::Start,
            endpoint_text: String::new(),
            probe_routes: Vec::new(),
            probe_index: 0,
            server_running: false,
            failure: None,
        };
        assert(agent.probe_routes.deep_view() =~= Seq::<RouteView>::empty());
        agent
    }

    /// The attributes of the agent.
    pub fn get_attributes_from_agents(&self) -> (attributes: &BasicAgent)
        ensures
            attributes@ == self@.attributes,
    {
        &self.attributes
    }

    /// The state of the agent.
    pub fn state(&self) -> (state: AgentState)
        ensures
            state == self@.attributes.state,
    {
        self.attributes.state
    }

    /// How many builds have failed since the last one that succeeded.
    pub fn bug_count(&self) -> (count: u8)
        ensures
            count == self@.bug_count,
    {
        self.bug_count
    }

    /// The error text of the last build that failed.
    pub fn bug_errors(&self) -> (errors: &Option<String>)
        ensures
            errors.deep_view() == self@.bug_errors,
    {
        &self.bug_errors
    }

    /// The answer that the agent waits for.
    pub fn waiting(&self) -> (waiting: Waiting)
        ensures
            waiting == self@.waiting,
    {
        self.waiting
    }

    /// Whether the test server is running.
    pub fn is_server_running(&self) -> (running: bool)
        ensures
            running == self@.server_running,
    {
        self.server_running
    }

    /// Why the agent gave up, if it did.
    pub fn failure(&self) -> (failure: &Option<AgentError>)
        ensures
            failure.deep_view() == self@.failure,
    {
        &self.failure
    }

    fn abort(&mut self, factsheet: &FactSheet, effects: Vec<Effect>, error: AgentError) -> (step:
        Step)
        ensures
            final(self)@ == backend_abort(
                old(self)@,
                factsheet@,
                effects.deep_view(),
                error@,
            ).agent,
            step@ == backend_abort(old(self)@, factsheet@, effects.deep_view(), error@).step,
    {
        let mut effects = effects;
        if self.server_running {
            push_effect(&mut effects, Effect::StopServer);
            self.server_running = false;
        }
        self.failure = Some(error.clone());
        Step { effects, next: Next::Aborted(error) }
    }

    fn begin_working(&mut self, factsheet: &FactSheet, effects: Vec<Effect>) -> (step: Step)
        ensures
            final(self)@ == backend_begin_working(
                old(self)@,
                factsheet@,
                effects.deep_view(),
            ).agent,
            step@ == backend_begin_working(old(self)@, factsheet@, effects.deep_view()).step,
    {
        let request = if self.bug_count == 0 {
            ModelRequest {
                context: build_improved_code_context(factsheet),
                position: self.attributes.position.clone(),
                operation: AiFunction::PrintImprovedWebserverCode,
                template: AiFunction::PrintImprovedWebserverCode,
            }
        } else {
            ModelRequest {
                context: build_fix_code_context(&factsheet.backend_code, &self.bug_errors),
                position: self.attributes.position.clone(),
                operation: AiFunction::PrintFixedCode,
                template: AiFunction::PrintFixedCode,
            }
        };
        self.attributes.state = AgentState::Working;
        self.waiting = Waiting::Code;
        Step { effects, next: Next::Await(Request::AskModel(request)) }
    }

    fn begin_testing(&mut self, factsheet: &FactSheet, effects: Vec<Effect>) -> (step: Step)
        ensures
            final(self)@ == backend_begin_testing(
                old(self)@,
                factsheet@,
                effects.deep_view(),
            ).agent,
            step@ == backend_begin_testing(old(self)@, factsheet@, effects.deep_view()).step,
    {
        let mut effects = effects;
        push_effect(
            &mut effects,
            print_effect(
                PrintCommand::UnitTest,
                &self.attributes.position,
                String::from_str("backend code unit testing: Requesting user input"),
            ),
        );
        self.attributes.state = AgentState::UnitTesting;
        self.waiting = Waiting::Consent;
        Step { effects, next: Next::Await(Request::ConfirmSafeCode) }
    }

    fn continue_probing(&mut self, factsheet: &FactSheet, effects: Vec<Effect>) -> (step: Step)
        ensures
            final(self)@ == backend_continue_probing(
                old(self)@,
                factsheet@,
                effects.deep_view(),
            ).agent,
            step@ == backend_continue_probing(old(self)@, factsheet@, effects.deep_view()).step,
    {
        let mut effects = effects;
        if self.probe_index < self.probe_routes.len() {
            let mut statement = String::from_str("Testing endpoint '");
            statement.append(self.probe_routes[self.probe_index].route.as_str());
            statement.append("'...");
            let url = build_probe_url(self.probe_routes[self.probe_index].route.as_str());
            push_effect(
                &mut effects,
                print_effect(PrintCommand::UnitTest, &self.attributes.position, statement),
            );
            self.waiting = Waiting::Probe;
            Step { effects, next: Next::Await(Request::ProbeUrl(url)) }
        } else {
            push_effect(&mut effects, Effect::SaveApiEndpoints(self.endpoint_text.clone()));
            push_effect(
                &mut effects,
                print_effect(
                    PrintCommand::UnitTest,
                    &self.attributes.position,
                    String::from_str("Backend testing is complete..."),
                ),
            );
            push_effect(&mut effects, Effect::StopServer);
            self.attributes.state = AgentState::Finished;
            self.waiting = Waiting::Start;
            self.server_running = false;
            Step { effects, next: Next::Finished }
        }
    }

    fn after_probe(&mut self, factsheet: &FactSheet, outcome: Result<u16, String>) -> (step: Step)
        requires
            old(self).probe_index < old(self).probe_routes.len(),
        ensures
            final(self)@ == backend_after_probe(
                old(self)@,
                factsheet@,
                failure_text_view(outcome),
            ).agent,
            step@ == backend_after_probe(old(self)@, factsheet@, failure_text_view(outcome)).step,
    {
        let mut effects = no_effects();
        match outcome {
            Ok(status) => {
                if status != 200 {
                    let statement = join_text(
                        "WARNING ! Failed to call backend url endpoint ",
                        self.probe_routes[self.probe_index].route.as_str(),
                    );
                    push_effect(
                        &mut effects,
                        print_effect(PrintCommand::Issue, &self.attributes.position, statement),
                    );
                }
            },
            Err(failure) => {
                push_effect(&mut effects, Effect::StopServer);
                push_effect(
                    &mut effects,
                    print_effect(
                        PrintCommand::Issue,
                        &self.attributes.position,
                        join_text("Error checking backend ", failure.as_str()),
                    ),
                );
                self.server_running = false;
            },
        }
        self.probe_index += 1;
        self.continue_probing(factsheet, effects)
    }

    fn after_build(&mut self, factsheet: &FactSheet, outcome: Result<(), String>) -> (step: Step)
        ensures
            final(self)@ == backend_after_build(
                old(self)@,
                factsheet@,
                failure_text_view(outcome),
            ).agent,
            step@ == backend_after_build(old(self)@, factsheet@, failure_text_view(outcome)).step,
    {
        let mut effects = no_effects();
        match outcome {
            Ok(_) => {
                push_effect(
                    &mut effects,
                    print_effect(
                        PrintCommand::UnitTest,
                        &self.attributes.position,
                        String::from_str(
                            "backend code unit testing: Test server build successful...",
                        ),
                    ),
                );
                self.bug_count = 0;
                self.waiting = Waiting::MainSource;
                Step { effects, next: Next::Await(Request::ReadExecMain) }
            },
            Err(errors) => {
                if self.bug_count < u8::MAX {
                    self.bug_count += 1;
                }
                self.bug_errors = Some(errors);
                if self.bug_count > BUG_BUDGET {
                    push_effect(
                        &mut effects,
                        print_effect(
                            PrintCommand::Issue,
                            &self.attributes.position,
                            String::from_str(
                                "backend code unit testing: Too may bugs found in code",
                            ),
                        ),
                    );
                    self.abort(factsheet, effects, AgentError::TooManyBugs)
                } else {
                    self.begin_working(factsheet, effects)
                }
            },
        }
    }

    fn after_routes(&mut self, factsheet: &mut FactSheet, routes: Vec<RouteObject>) -> (step:
        Step)
        ensures
            final(self)@ == backend_after_routes(
                old(self)@,
                old(factsheet)@,
                routes.deep_view(),
            ).agent,
            final(factsheet)@ == backend_after_routes(
                old(self)@,
                old(factsheet)@,
                routes.deep_view(),
            ).factsheet,
            step@ == backend_after_routes(old(self)@, old(factsheet)@, routes.deep_view()).step,
    {
        let selected = select_probe_routes(&routes);
        let mut effects = no_effects();
        push_effect(
            &mut effects,
            print_effect(
                PrintCommand::UnitTest,
                &self.attributes.position,
                String::from_str("backend code unit testing: Starting web server..."),
            ),
        );
        push_effect(&mut effects, Effect::StartServer);
        push_effect(
            &mut effects,
            print_effect(
                PrintCommand::UnitTest,
                &self.attributes.position,
                String::from_str(
                    "backend code unit testing: Launching test on server in 4 seconds...",
                ),
            ),
        );
        push_effect(&mut effects, Effect::Settle(SETTLE_SECONDS));
        factsheet.api_endpoint_schema = Some(clone_routes(&selected));
        self.probe_routes = selected;
        self.probe_index = 0;
        self.server_running = true;
        self.continue_probing(factsheet, effects)
    }

    fn after_code(&mut self, factsheet: &mut FactSheet, code: String) -> (step: Step)
        ensures
            final(self)@ == backend_after_code(old(self)@, old(factsheet)@, code@).agent,
            final(factsheet)@ == backend_after_code(old(self)@, old(factsheet)@, code@).factsheet,
            step@ == backend_after_code(old(self)@, old(factsheet)@, code@).step,
    {
        let mut effects = no_effects();
        push_effect(&mut effects, Effect::SaveBackendCode(code.clone()));
        factsheet.backend_code = Some(code);
        if self.attributes.state == AgentState::Discovery {
            self.begin_working(factsheet, effects)
        } else {
            self.begin_testing(factsheet, effects)
        }
    }

    fn start(&mut self, factsheet: &FactSheet) -> (step: Step)
        ensures
            final(self)@ == backend_start(old(self)@, factsheet@).agent,
            step@ == backend_start(old(self)@, factsheet@).step,
    {
        match self.attributes.state {
            AgentState::Discovery => {
                self.waiting = Waiting::CodeTemplate;
                Step { effects: no_effects(), next: Next::Await(Request::ReadCodeTemplate) }
            },
            AgentState::Working => self.begin_working(factsheet, no_effects()),
            _ => self.begin_testing(factsheet, no_effects()),
        }
    }

    /// One step of the agent: takes the event that the driver reports,
    /// changes the agent and the fact sheet, and says what the driver is
    /// to do next. The step is exactly what [`backend_step`] describes.
    pub fn step(&mut self, factsheet: &mut FactSheet, event: Event) -> (step: Step)
        ensures
            final(self)@ == backend_step(old(self)@, old(factsheet)@, event@).agent,
            final(factsheet)@ == backend_step(old(self)@, old(factsheet)@, event@).factsheet,
            step@ == backend_step(old(self)@, old(factsheet)@, event@).step,
    {
        match &self.failure {
            Some(error) => {
                return Step { effects: no_effects(), next: Next::Aborted(error.clone()) };
            },
            None => {},
        }
        if self.attributes.state == AgentState::Finished {
            return Step { effects: no_effects(), next: Next::Finished };
        }
        if self.attributes.state == AgentState::Error {
            return self.abort(factsheet, no_effects(), AgentError::UnexpectedEvent);
        }
        match self.waiting {
            Waiting::Start => match event {
                Event::Start => self.start(factsheet),
                _ => self.abort(factsheet, no_effects(), AgentError::UnexpectedEvent),
            },
            Waiting::CodeTemplate => match event {
                Event::FileRead(template) => {
                    let context = build_initial_code_context(
                        template.as_str(),
                        factsheet.project_description.as_str(),
                    );
                    self.waiting = Waiting::Code;
                    Step {
                        effects: no_effects(),
                        next: Next::Await(
                            Request::AskModel(
                                ModelRequest {
                                    context,
                                    position: self.attributes.position.clone(),
                                    operation: AiFunction::PrintBackendWebserverCode,
                                    template: AiFunction::PrintBackendWebserverCode,
                                },
                            ),
                        ),
                    }
                },
                _ => self.abort(factsheet, no_effects(), AgentError::UnexpectedEvent),
            },
            Waiting::Code => match event {
                Event::ModelReplied(Ok(code)) => self.after_code(factsheet, code),
                Event::ModelReplied(Err(error)) => self.abort(
                    factsheet,
                    no_effects(),
                    AgentError::Gateway(error),
                ),
                _ => self.abort(factsheet, no_effects(), AgentError::UnexpectedEvent),
            },
            Waiting::Consent => match event {
                Event::Confirmed(agreed) => {
                    if agreed {
                        let mut effects = no_effects();
                        push_effect(
                            &mut effects,
                            print_effect(
                                PrintCommand::UnitTest,
                                &self.attributes.position,
                                String::from_str("backend code unit testing: Building project"),
                            ),
                        );
                        self.waiting = Waiting::Build;
                        Step { effects, next: Next::Await(Request::BuildProject) }
                    } else {
                        self.abort(factsheet, no_effects(), AgentError::Declined)
                    }
                },
                _ => self.abort(factsheet, no_effects(), AgentError::UnexpectedEvent),
            },
            Waiting::Build => match event {
                Event::BuildFinished(outcome) => self.after_build(factsheet, outcome),
                _ => self.abort(factsheet, no_effects(), AgentError::UnexpectedEvent),
            },
            Waiting::MainSource => match event {
                Event::FileRead(source) => {
                    let context = build_endpoint_context(source.as_str());
                    self.waiting = Waiting::Endpoints;
                    Step {
                        effects: no_effects(),
                        next: Next::Await(
                            Request::AskModel(
                                ModelRequest {
                                    context,
                                    position: self.attributes.position.clone(),
                                    operation: AiFunction::PrintRestApiEndpoints,
                                    template: AiFunction::PrintRestApiEndpoints,
                                },
                            ),
                        ),
                    }
                },
                _ => self.abort(factsheet, no_effects(), AgentError::UnexpectedEvent),
            },
            Waiting::Endpoints => match event {
                Event::ModelReplied(Ok(text)) => {
                    self.endpoint_text = text.clone();
                    self.waiting = Waiting::Routes;
                    Step {
                        effects: no_effects(),
                        next: Next::Await(Request::DecodeRoutes(text)),
                    }
                },
                Event::ModelReplied(Err(error)) => self.abort(
                    factsheet,
                    no_effects(),
                    AgentError::Gateway(error),
                ),
                _ => self.abort(factsheet, no_effects(), AgentError::UnexpectedEvent),
            },
            Waiting::Routes => match event {
                Event::RoutesDecoded(Some(routes)) => self.after_routes(factsheet, routes),
                Event::RoutesDecoded(None) => self.abort(
                    factsheet,
                    no_effects(),
                    AgentError::Decode,
                ),
                _ => self.abort(factsheet, no_effects(), AgentError::UnexpectedEvent),
            },
            Waiting::Probe => match event {
                Event::Probed(outcome) => {
                    if self.probe_index < self.probe_routes.len() {
                        self.after_probe(factsheet, outcome)
                    } else {
                        self.abort(factsheet, no_effects(), AgentError::UnexpectedEvent)
                    }
                },
                _ => self.abort(factsheet, no_effects(), AgentError::UnexpectedEvent),
            },
        }
    }
}

} // verus!
