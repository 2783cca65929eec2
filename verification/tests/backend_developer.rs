use auto_gippity::helpers::command_line::PrintCommand;
use auto_gippity::models::agent_basic::basic_agent::AgentState;
use auto_gippity::models::agents::agent_backend::{
    build_endpoint_context, build_fix_code_context, build_improved_code_context,
    build_initial_code_context, build_probe_url, is_probe_candidate, select_probe_routes,
    AgentBackendDeveloper, Waiting, BUG_BUDGET, SETTLE_SECONDS,
};
use auto_gippity::models::agents::agent_protocol::{
    AgentError, AiFunction, Effect, Event, ModelRequest, Next, ProgressLine, Request, Step,
};
use auto_gippity::models::agents::agent_traits::{
    clone_routes, FactSheet, ProjectScope, RouteObject,
};
use auto_gippity::models::general::llm::GatewayError;

const POSITION: &str = "Backend Developer";

fn route(method: &str, path: &str, dynamic: &str) -> RouteObject {
    RouteObject {
        is_route_dynamic: dynamic.to_string(),
        method: method.to_string(),
        response_schema: serde_json::Value::String(format!("schema of {}", path)),
        route: path.to_string(),
    }
}

fn printed(command: PrintCommand, statement: &str) -> Effect {
    Effect::Print(ProgressLine {
        command,
        position: POSITION.to_string(),
        statement: statement.to_string(),
    })
}

fn fresh() -> (AgentBackendDeveloper, FactSheet) {
    (AgentBackendDeveloper::new(), FactSheet::new("a shop for bicycles".to_string()))
}

/// Takes a new agent through `Discovery` and `Working` to the request for
/// consent.
fn at_consent() -> (AgentBackendDeveloper, FactSheet) {
    let (mut agent, mut factsheet) = fresh();
    agent.step(&mut factsheet, Event::Start);
    agent.step(&mut factsheet, Event::FileRead("TEMPLATE".to_string()));
    agent.step(&mut factsheet, Event::ModelReplied(Ok("fn main() {}".to_string())));
    let step = agent.step(&mut factsheet, Event::ModelReplied(Ok("fn main() { serve() }".to_string())));
    assert_eq!(step.next, Next::Await(Request::ConfirmSafeCode));
    (agent, factsheet)
}

fn at_build() -> (AgentBackendDeveloper, FactSheet) {
    let (mut agent, mut factsheet) = at_consent();
    let step = agent.step(&mut factsheet, Event::Confirmed(true));
    assert_eq!(step.next, Next::Await(Request::BuildProject));
    (agent, factsheet)
}

/// Takes the agent from a build that is asked for to the request for the
/// decoded routes.
fn at_routes() -> (AgentBackendDeveloper, FactSheet) {
    let (mut agent, mut factsheet) = at_build();
    agent.step(&mut factsheet, Event::BuildFinished(Ok(())));
    agent.step(&mut factsheet, Event::FileRead("fn main() { serve() }".to_string()));
    let step = agent.step(&mut factsheet, Event::ModelReplied(Ok("[the endpoints]".to_string())));
    assert_eq!(step.next, Next::Await(Request::DecodeRoutes("[the endpoints]".to_string())));
    (agent, factsheet)
}

/// One failed build, the fix of the model and the consent to build again.
fn fail_once(agent: &mut AgentBackendDeveloper, factsheet: &mut FactSheet, errors: &str) -> Step {
    let step = agent.step(factsheet, Event::BuildFinished(Err(errors.to_string())));
    if step.next == Next::Aborted(AgentError::TooManyBugs) {
        return step;
    }
    agent.step(factsheet, Event::ModelReplied(Ok(format!("fixed after {}", errors))));
    agent.step(factsheet, Event::Confirmed(true))
}

fn respond(request: &Request) -> Event {
    match request {
        Request::ReadCodeTemplate => Event::FileRead("TEMPLATE".to_string()),
        Request::ReadExecMain => Event::FileRead("fn main() {}".to_string()),
        Request::AskModel(_) => Event::ModelReplied(Ok("fn main() {}".to_string())),
        Request::DecodeScope(_) => Event::ScopeDecoded(None),
        Request::DecodeUrls(_) => Event::UrlsDecoded(None),
        Request::DecodeRoutes(_) => Event::RoutesDecoded(Some(vec![
            route("get", "/health", "false"),
            route("post", "/items", "false"),
        ])),
        Request::ConfirmSafeCode => Event::Confirmed(true),
        Request::BuildProject => Event::BuildFinished(Ok(())),
        Request::ProbeUrl(_) => Event::Probed(Ok(200)),
    }
}

fn execute(agent: &mut AgentBackendDeveloper, factsheet: &mut FactSheet) -> Result<Vec<Effect>, AgentError> {
    let mut effects = Vec::new();
    let mut step = agent.step(factsheet, Event::Start);
    loop {
        effects.append(&mut step.effects);
        match step.next {
            Next::Finished => return Ok(effects),
            Next::Aborted(error) => return Err(error),
            Next::Await(request) => step = agent.step(factsheet, respond(&request)),
        }
    }
}

#[test]
fn tests_backend_developer() {
    let mut agent: AgentBackendDeveloper = AgentBackendDeveloper::new();
    let mut factsheet = FactSheet {
        project_description:
            "build a website that fetches and tracks fitness progress with timezone information"
                .to_string(),
        project_scope: Some(ProjectScope {
            is_crud_required: true,
            is_user_login_and_logout: true,
            is_external_urls_required: true,
        }),
        external_urls: Some(vec!["http://worldtimeapi.org/api/timezone".to_string()]),
        backend_code: None,
        api_endpoint_schema: None,
    };
    assert_eq!(agent.state(), AgentState::Discovery);
    execute(&mut agent, &mut factsheet).expect("Failed to execute Backend Developer agent");
    assert_eq!(agent.state(), AgentState::Finished);
    assert!(factsheet.backend_code.is_some());
    assert_eq!(factsheet.api_endpoint_schema, Some(vec![route("get", "/health", "false")]));
}

#[test]
fn new_backend_developer_starts_in_discovery() {
    let agent = AgentBackendDeveloper::new();
    let attributes = agent.get_attributes_from_agents();
    assert_eq!(attributes.state, AgentState::Discovery);
    assert_eq!(attributes.position, POSITION);
    assert_eq!(attributes.objective, "Developes backend  code for web server and database");
    assert!(attributes.memory.is_empty());
    assert_eq!(agent.state(), AgentState::Discovery);
    assert_eq!(agent.bug_count(), 0);
    assert_eq!(agent.bug_errors(), &None);
    assert_eq!(agent.waiting(), Waiting::Start);
    assert_eq!(agent.failure(), &None);
    assert!(!agent.is_server_running());
}

#[test]
fn discovery_reads_the_template_and_asks_for_the_first_code() {
    let (mut agent, mut factsheet) = fresh();
    let step = agent.step(&mut factsheet, Event::Start);
    assert_eq!(step, Step { effects: vec![], next: Next::Await(Request::ReadCodeTemplate) });
    let step = agent.step(&mut factsheet, Event::FileRead("TEMPLATE".to_string()));
    assert_eq!(
        step,
        Step {
            effects: vec![],
            next: Next::Await(Request::AskModel(ModelRequest {
                context: "CODE TEMPLATE: TEMPLATE \n PROJECT_DESCRIPTION: a shop for bicycles \n"
                    .to_string(),
                position: POSITION.to_string(),
                operation: AiFunction::PrintBackendWebserverCode,
                template: AiFunction::PrintBackendWebserverCode,
            })),
        }
    );
    assert_eq!(agent.state(), AgentState::Discovery);
    assert_eq!(factsheet.backend_code, None);
}

#[test]
fn discovery_stores_and_saves_the_code_of_the_model() {
    let (mut agent, mut factsheet) = fresh();
    assert_eq!(factsheet.backend_code, None);
    agent.step(&mut factsheet, Event::Start);
    agent.step(&mut factsheet, Event::FileRead("TEMPLATE".to_string()));
    let step = agent.step(&mut factsheet, Event::ModelReplied(Ok("fn main() {}".to_string())));
    assert_eq!(factsheet.backend_code, Some("fn main() {}".to_string()));
    assert_eq!(step.effects, vec![Effect::SaveBackendCode("fn main() {}".to_string())]);
    assert_eq!(agent.state(), AgentState::Working);
    match step.next {
        Next::Await(Request::AskModel(request)) => {
            assert_eq!(request.operation, AiFunction::PrintImprovedWebserverCode);
            assert_eq!(request.template, AiFunction::PrintImprovedWebserverCode);
            assert_eq!(request.context, build_improved_code_context(&factsheet));
        }
        other => panic!("expected a request to the model, got {:?}", other),
    }
}

#[test]
fn working_hands_improved_code_to_the_unit_tests() {
    let (mut agent, mut factsheet) = fresh();
    agent.step(&mut factsheet, Event::Start);
    agent.step(&mut factsheet, Event::FileRead("TEMPLATE".to_string()));
    agent.step(&mut factsheet, Event::ModelReplied(Ok("first".to_string())));
    let step = agent.step(&mut factsheet, Event::ModelReplied(Ok("improved".to_string())));
    assert_eq!(factsheet.backend_code, Some("improved".to_string()));
    assert_eq!(
        step,
        Step {
            effects: vec![
                Effect::SaveBackendCode("improved".to_string()),
                printed(PrintCommand::UnitTest, "backend code unit testing: Requesting user input"),
            ],
            next: Next::Await(Request::ConfirmSafeCode),
        }
    );
    assert_eq!(agent.state(), AgentState::UnitTesting);
}

#[test]
fn contexts_have_their_exact_texts() {
    assert_eq!(
        build_initial_code_context("T", "D"),
        "CODE TEMPLATE: T \n PROJECT_DESCRIPTION: D \n"
    );
    assert_eq!(
        build_fix_code_context(&Some("fn main() {\n}".to_string()), &Some("error[E0425]: \"x\"".to_string())),
        "BROKEN CODE: Some(\"fn main() {\\n}\") \n ERROR_BUGS: Some(\"error[E0425]: \\\"x\\\"\") \n \n    THIS FUNCTION ONLY OUTPUTS THE CODE . JUST OUTPUT THE CODE"
    );
    assert_eq!(
        build_fix_code_context(&None, &None),
        "BROKEN CODE: None \n ERROR_BUGS: None \n \n    THIS FUNCTION ONLY OUTPUTS THE CODE . JUST OUTPUT THE CODE"
    );
    assert_eq!(build_endpoint_context("fn main() {}"), "CODE INPUT fn main() {}");
    assert_eq!(build_probe_url("/items"), "http://localhost:8080/items");
    let mut factsheet = FactSheet::new("a shop".to_string());
    factsheet.backend_code = Some("fn main() {}".to_string());
    assert_eq!(
        build_improved_code_context(&factsheet),
        "CODE TEMPLATE: Some(\"fn main() {}\") \n PROJECT_DESCRIPTION: FactSheet { project_description: \"a shop\", project_scope: None, external_urls: None, backend_code: Some(\"fn main() {}\"), api_endpoint_schema: None } \n"
    );
}

#[test]
fn declined_consent_is_fatal() {
    let (mut agent, mut factsheet) = at_consent();
    let step = agent.step(&mut factsheet, Event::Confirmed(false));
    assert_eq!(step, Step { effects: vec![], next: Next::Aborted(AgentError::Declined) });
    assert_eq!(agent.failure(), &Some(AgentError::Declined));
    let again = agent.step(&mut factsheet, Event::Confirmed(true));
    assert_eq!(again, Step { effects: vec![], next: Next::Aborted(AgentError::Declined) });
    assert_eq!(agent.state(), AgentState::UnitTesting);
}

#[test]
fn consent_leads_to_the_build() {
    let (mut agent, mut factsheet) = at_consent();
    let step = agent.step(&mut factsheet, Event::Confirmed(true));
    assert_eq!(
        step,
        Step {
            effects: vec![printed(
                PrintCommand::UnitTest,
                "backend code unit testing: Building project"
            )],
            next: Next::Await(Request::BuildProject),
        }
    );
}

#[test]
fn failing_build_goes_back_to_working_and_counts_the_bug() {
    let (mut agent, mut factsheet) = at_build();
    assert_eq!(agent.bug_count(), 0);
    let code = factsheet.backend_code.clone();
    let step = agent.step(&mut factsheet, Event::BuildFinished(Err("error: no main".to_string())));
    assert_eq!(agent.state(), AgentState::Working);
    assert_eq!(agent.bug_count(), 1);
    assert_eq!(agent.bug_errors(), &Some("error: no main".to_string()));
    assert_eq!(
        step,
        Step {
            effects: vec![],
            next: Next::Await(Request::AskModel(ModelRequest {
                context: build_fix_code_context(&code, &Some("error: no main".to_string())),
                position: POSITION.to_string(),
                operation: AiFunction::PrintFixedCode,
                template: AiFunction::PrintFixedCode,
            })),
        }
    );
}

#[test]
fn two_failing_builds_are_recoverable_and_the_third_is_fatal() {
    let (mut agent, mut factsheet) = at_build();
    assert_eq!(BUG_BUDGET, 2);
    let step = fail_once(&mut agent, &mut factsheet, "first");
    assert_eq!(step.next, Next::Await(Request::BuildProject));
    assert_eq!(agent.bug_count(), 1);
    let step = fail_once(&mut agent, &mut factsheet, "second");
    assert_eq!(step.next, Next::Await(Request::BuildProject));
    assert_eq!(agent.bug_count(), 2);
    assert_eq!(agent.failure(), &None);
    let step = fail_once(&mut agent, &mut factsheet, "third");
    assert_eq!(
        step,
        Step {
            effects: vec![printed(
                PrintCommand::Issue,
                "backend code unit testing: Too may bugs found in code"
            )],
            next: Next::Aborted(AgentError::TooManyBugs),
        }
    );
    assert_eq!(agent.bug_count(), 3);
    assert_eq!(agent.bug_errors(), &Some("third".to_string()));
    assert_eq!(agent.failure(), &Some(AgentError::TooManyBugs));
}

#[test]
fn successful_build_resets_the_bug_count() {
    let (mut agent, mut factsheet) = at_build();
    fail_once(&mut agent, &mut factsheet, "first");
    fail_once(&mut agent, &mut factsheet, "second");
    assert_eq!(agent.bug_count(), 2);
    let step = agent.step(&mut factsheet, Event::BuildFinished(Ok(())));
    assert_eq!(agent.bug_count(), 0);
    assert_eq!(
        step,
        Step {
            effects: vec![printed(
                PrintCommand::UnitTest,
                "backend code unit testing: Test server build successful..."
            )],
            next: Next::Await(Request::ReadExecMain),
        }
    );
    let step = agent.step(&mut factsheet, Event::FileRead("SRC".to_string()));
    assert_eq!(
        step.next,
        Next::Await(Request::AskModel(ModelRequest {
            context: "CODE INPUT SRC".to_string(),
            position: POSITION.to_string(),
            operation: AiFunction::PrintRestApiEndpoints,
            template: AiFunction::PrintRestApiEndpoints,
        }))
    );
}

#[test]
fn only_static_get_routes_are_selected() {
    let routes = vec![
        route("get", "/a", "false"),
        route("post", "/b", "false"),
        route("get", "/c", "true"),
    ];
    let selected = select_probe_routes(&routes);
    assert_eq!(selected, vec![route("get", "/a", "false")]);
    assert!(is_probe_candidate(&routes[0]));
    assert!(!is_probe_candidate(&routes[1]));
    assert!(!is_probe_candidate(&routes[2]));
}

#[test]
fn selection_compares_the_texts_as_written_and_keeps_the_order() {
    let routes = vec![
        route("GET", "/upper", "false"),
        route("get", "/second", "false"),
        route("get", "/flag", "False"),
        route("get", "/first", "false"),
        route("get ", "/space", "false"),
    ];
    assert_eq!(
        select_probe_routes(&routes),
        vec![route("get", "/second", "false"), route("get", "/first", "false")]
    );
    assert_eq!(select_probe_routes(&Vec::new()), Vec::<RouteObject>::new());
}

#[test]
fn copies_of_routes_keep_the_schema() {
    let routes = vec![route("get", "/a", "false"), route("put", "/b", "true")];
    let copy = clone_routes(&routes);
    assert_eq!(copy, routes);
    assert_eq!(copy[1].response_schema, serde_json::Value::String("schema of /b".to_string()));
    assert_eq!(routes[0].clone(), routes[0]);
}

#[test]
fn healthy_server_finishes_without_an_issue() {
    let (mut agent, mut factsheet) = at_routes();
    let routes = vec![
        route("get", "/a", "false"),
        route("post", "/b", "false"),
        route("get", "/c", "true"),
        route("get", "/d", "false"),
    ];
    let step = agent.step(&mut factsheet, Event::RoutesDecoded(Some(routes)));
    assert_eq!(
        step,
        Step {
            effects: vec![
                printed(PrintCommand::UnitTest, "backend code unit testing: Starting web server..."),
                Effect::StartServer,
                printed(
                    PrintCommand::UnitTest,
                    "backend code unit testing: Launching test on server in 4 seconds..."
                ),
                Effect::Settle(5),
                printed(PrintCommand::UnitTest, "Testing endpoint '/a'..."),
            ],
            next: Next::Await(Request::ProbeUrl("http://localhost:8080/a".to_string())),
        }
    );
    assert_eq!(SETTLE_SECONDS, 5);
    assert!(agent.is_server_running());
    assert_eq!(
        factsheet.api_endpoint_schema,
        Some(vec![route("get", "/a", "false"), route("get", "/d", "false")])
    );
    let step = agent.step(&mut factsheet, Event::Probed(Ok(200)));
    assert_eq!(
        step,
        Step {
            effects: vec![printed(PrintCommand::UnitTest, "Testing endpoint '/d'...")],
            next: Next::Await(Request::ProbeUrl("http://localhost:8080/d".to_string())),
        }
    );
    let step = agent.step(&mut factsheet, Event::Probed(Ok(200)));
    assert_eq!(
        step,
        Step {
            effects: vec![
                Effect::SaveApiEndpoints("[the endpoints]".to_string()),
                printed(PrintCommand::UnitTest, "Backend testing is complete..."),
                Effect::StopServer,
            ],
            next: Next::Finished,
        }
    );
    assert_eq!(agent.state(), AgentState::Finished);
    assert!(!agent.is_server_running());
    assert_eq!(agent.failure(), &None);
}

#[test]
fn no_route_to_probe_finishes_at_once() {
    let (mut agent, mut factsheet) = at_routes();
    let step = agent.step(&mut factsheet, Event::RoutesDecoded(Some(vec![route("post", "/b", "false")])));
    assert_eq!(step.next, Next::Finished);
    assert_eq!(step.effects.len(), 7);
    assert_eq!(step.effects[1], Effect::StartServer);
    assert_eq!(step.effects[6], Effect::StopServer);
    assert_eq!(factsheet.api_endpoint_schema, Some(vec![]));
    assert_eq!(agent.state(), AgentState::Finished);
    assert!(!agent.is_server_running());
}

#[test]
fn other_status_is_a_warning_and_probing_goes_on() {
    let (mut agent, mut factsheet) = at_routes();
    let routes = vec![route("get", "/a", "false"), route("get", "/b", "false")];
    agent.step(&mut factsheet, Event::RoutesDecoded(Some(routes)));
    let step = agent.step(&mut factsheet, Event::Probed(Ok(404)));
    assert_eq!(
        step,
        Step {
            effects: vec![
                printed(PrintCommand::Issue, "WARNING ! Failed to call backend url endpoint /a"),
                printed(PrintCommand::UnitTest, "Testing endpoint '/b'..."),
            ],
            next: Next::Await(Request::ProbeUrl("http://localhost:8080/b".to_string())),
        }
    );
    assert!(agent.is_server_running());
    let step = agent.step(&mut factsheet, Event::Probed(Ok(200)));
    assert_eq!(step.next, Next::Finished);
    assert_eq!(agent.state(), AgentState::Finished);
}

#[test]
fn failed_connection_kills_the_server_and_probing_goes_on() {
    let (mut agent, mut factsheet) = at_routes();
    let routes = vec![route("get", "/a", "false"), route("get", "/b", "false")];
    agent.step(&mut factsheet, Event::RoutesDecoded(Some(routes)));
    let step = agent.step(&mut factsheet, Event::Probed(Err("connection refused".to_string())));
    assert_eq!(
        step,
        Step {
            effects: vec![
                Effect::StopServer,
                printed(PrintCommand::Issue, "Error checking backend connection refused"),
                printed(PrintCommand::UnitTest, "Testing endpoint '/b'..."),
            ],
            next: Next::Await(Request::ProbeUrl("http://localhost:8080/b".to_string())),
        }
    );
    assert!(!agent.is_server_running());
    assert_eq!(agent.failure(), &None);
    let step = agent.step(&mut factsheet, Event::Probed(Err("connection refused".to_string())));
    assert_eq!(step.next, Next::Finished);
    assert_eq!(step.effects.last(), Some(&Effect::StopServer));
    assert_eq!(agent.state(), AgentState::Finished);
}

#[test]
fn finished_agent_ignores_every_event() {
    let (mut agent, mut factsheet) = at_routes();
    agent.step(&mut factsheet, Event::RoutesDecoded(Some(vec![])));
    assert_eq!(agent.state(), AgentState::Finished);
    let code = factsheet.backend_code.clone();
    let events = vec![
        Event::Start,
        Event::FileRead("x".to_string()),
        Event::ModelReplied(Ok("other code".to_string())),
        Event::ModelReplied(Err(GatewayError::NoChoices)),
        Event::Confirmed(false),
        Event::BuildFinished(Err("boom".to_string())),
        Event::RoutesDecoded(Some(vec![route("get", "/a", "false")])),
        Event::Probed(Ok(500)),
    ];
    for event in events {
        let step = agent.step(&mut factsheet, event);
        assert_eq!(step, Step { effects: vec![], next: Next::Finished });
        assert_eq!(agent.state(), AgentState::Finished);
        assert_eq!(agent.bug_count(), 0);
        assert_eq!(factsheet.backend_code, code);
        assert_eq!(factsheet.api_endpoint_schema, Some(vec![]));
    }
}

#[test]
fn gateway_failure_is_fatal_for_the_agent() {
    let (mut agent, mut factsheet) = fresh();
    agent.step(&mut factsheet, Event::Start);
    agent.step(&mut factsheet, Event::FileRead("TEMPLATE".to_string()));
    let failure = GatewayError::Transport("timed out".to_string());
    let step = agent.step(&mut factsheet, Event::ModelReplied(Err(failure.clone())));
    assert_eq!(step.next, Next::Aborted(AgentError::Gateway(failure.clone())));
    assert_eq!(agent.failure(), &Some(AgentError::Gateway(failure)));
    assert_eq!(factsheet.backend_code, None);
}

#[test]
fn undecodable_endpoints_are_fatal() {
    let (mut agent, mut factsheet) = at_routes();
    let step = agent.step(&mut factsheet, Event::RoutesDecoded(None));
    assert_eq!(step, Step { effects: vec![], next: Next::Aborted(AgentError::Decode) });
    assert_eq!(factsheet.api_endpoint_schema, None);
    assert!(!agent.is_server_running());
}

#[test]
fn event_out_of_turn_is_fatal_and_kills_a_running_server() {
    let (mut agent, mut factsheet) = fresh();
    let step = agent.step(&mut factsheet, Event::Confirmed(true));
    assert_eq!(step.next, Next::Aborted(AgentError::UnexpectedEvent));

    let (mut agent, mut factsheet) = at_routes();
    agent.step(&mut factsheet, Event::RoutesDecoded(Some(vec![route("get", "/a", "false")])));
    assert!(agent.is_server_running());
    let step = agent.step(&mut factsheet, Event::Start);
    assert_eq!(
        step,
        Step { effects: vec![Effect::StopServer], next: Next::Aborted(AgentError::UnexpectedEvent) }
    );
    assert!(!agent.is_server_running());
}

#[test]
fn names_of_the_functions_tag_the_requests() {
    assert_eq!(AiFunction::ConvertUserInputToGoal.name(), "convert_user_input_to_goal");
    assert_eq!(AiFunction::PrintProjectScope.name(), "print_project_scope");
    assert_eq!(AiFunction::PrintSiteUrls.name(), "print_site_urls");
    assert_eq!(AiFunction::PrintBackendWebserverCode.name(), "print_backend_webserver_code");
    assert_eq!(AiFunction::PrintImprovedWebserverCode.name(), "print_improved_webserver_code");
    assert_eq!(AiFunction::PrintFixedCode.name(), "print_fixed_code");
    assert_eq!(AiFunction::PrintRestApiEndpoints.name(), "print_rest_api_endpoints");
}
