use auto_gippity::models::agent_basic::basic_agent::{AgentState, BasicAgent};
use auto_gippity::models::agents::agent_architect::AgentSolutionArchitect;
use auto_gippity::models::agents::agent_backend::AgentBackendDeveloper;
use auto_gippity::models::agents::agent_protocol::{
    AgentError, AiFunction, Effect, Event, ModelRequest, Next, Request, Step,
};
use auto_gippity::models::agents::agent_traits::{FactSheet, ProjectScope, RouteObject};
use auto_gippity::models::agents_manager::managing_agent::{Agent, ManagingAgent};

fn respond(request: &Request) -> Event {
    match request {
        Request::ReadCodeTemplate => Event::FileRead("TEMPLATE".to_string()),
        Request::ReadExecMain => Event::FileRead("fn main() {}".to_string()),
        Request::AskModel(asked) => Event::ModelReplied(Ok(format!("answer to {}", asked.operation.name()))),
        Request::DecodeScope(_) => Event::ScopeDecoded(Some(ProjectScope {
            is_crud_required: true,
            is_user_login_and_logout: true,
            is_external_urls_required: true,
        })),
        Request::DecodeUrls(_) => {
            Event::UrlsDecoded(Some(vec!["http://worldtimeapi.org/api/timezone".to_string()]))
        }
        Request::DecodeRoutes(_) => Event::RoutesDecoded(Some(vec![RouteObject {
            is_route_dynamic: "false".to_string(),
            method: "get".to_string(),
            response_schema: serde_json::Value::Null,
            route: "/progress".to_string(),
        }])),
        Request::ConfirmSafeCode => Event::Confirmed(true),
        Request::BuildProject => Event::BuildFinished(Ok(())),
        Request::ProbeUrl(_) => Event::Probed(Ok(200)),
    }
}

fn states(manager: &ManagingAgent) -> Vec<AgentState> {
    manager.agents().iter().map(|agent| agent.get_attributes_from_agents().state).collect()
}

#[test]
fn tests_managing_agent() {
    let user_request: &str =
        "need a app that tracks my fitness.also need to include timezones from web .";
    let request = ManagingAgent::describe_goal(user_request.to_string());
    assert_eq!(request.context, user_request);
    assert_eq!(request.position, "project manager");
    let mut managing_agent: ManagingAgent =
        ManagingAgent::new("An app that tracks fitness with timezones from the web.".to_string());
    let mut step = managing_agent.execute_project();
    let mut requests: Vec<Request> = Vec::new();
    loop {
        match step.next {
            Next::Finished => break,
            Next::Aborted(error) => panic!("the project was given up: {:?}", error),
            Next::Await(request) => {
                let event = respond(&request);
                requests.push(request);
                step = managing_agent.step(event);
            }
        }
    }
    assert_eq!(states(&managing_agent), vec![AgentState::Finished, AgentState::Finished]);
    let factsheet = managing_agent.factsheet();
    assert!(factsheet.project_scope.is_some());
    assert_eq!(
        factsheet.external_urls,
        Some(vec!["http://worldtimeapi.org/api/timezone".to_string()])
    );
    assert_eq!(factsheet.backend_code, Some("answer to print_improved_webserver_code".to_string()));
    assert_eq!(factsheet.api_endpoint_schema.as_ref().map(|routes| routes.len()), Some(1));
    let first_backend_request = requests.iter().position(|r| *r == Request::ReadCodeTemplate);
    let last_architect_request =
        requests.iter().rposition(|r| matches!(r, Request::ProbeUrl(url) if url.starts_with("http://worldtimeapi")));
    assert!(last_architect_request < first_backend_request);
}

#[test]
fn new_coordinator_holds_the_description_and_no_agents() {
    let manager = ManagingAgent::new("a shop".to_string());
    assert_eq!(manager.factsheet(), &FactSheet::new("a shop".to_string()));
    assert!(manager.agents().is_empty());
    let attributes: &BasicAgent = manager.get_attributes_from_agents();
    assert_eq!(attributes.position, "project manager");
    assert_eq!(attributes.objective, "Manage agents who are building websites for users");
    assert_eq!(attributes.state, AgentState::Discovery);
    assert!(attributes.memory.is_empty());
}

#[test]
fn goal_request_asks_for_the_goal_of_the_user() {
    assert_eq!(
        ManagingAgent::describe_goal("make me a blog".to_string()),
        ModelRequest {
            context: "make me a blog".to_string(),
            position: "project manager".to_string(),
            operation: AiFunction::PrintProjectScope,
            template: AiFunction::ConvertUserInputToGoal,
        }
    );
}

#[test]
fn agents_are_created_architect_first() {
    let mut manager = ManagingAgent::new("a shop".to_string());
    manager.create_agents();
    assert_eq!(manager.agents().len(), 2);
    assert!(matches!(manager.agents()[0], Agent::Architect(_)));
    assert!(matches!(manager.agents()[1], Agent::Backend(_)));
    assert_eq!(states(&manager), vec![AgentState::Discovery, AgentState::Discovery]);
    manager.add_agent(Agent::Backend(AgentBackendDeveloper::new()));
    manager.add_agent(Agent::Architect(AgentSolutionArchitect::new()));
    assert_eq!(manager.agents().len(), 4);
    assert!(matches!(manager.agents()[2], Agent::Backend(_)));
    assert!(matches!(manager.agents()[3], Agent::Architect(_)));
}

#[test]
fn project_begins_with_the_architect_and_hands_over_to_the_backend() {
    let mut manager = ManagingAgent::new("a shop".to_string());
    let step = manager.execute_project();
    assert_eq!(
        step,
        Step {
            effects: vec![],
            next: Next::Await(Request::AskModel(ModelRequest {
                context: "a shop".to_string(),
                position: "Solutions Architect".to_string(),
                operation: AiFunction::PrintProjectScope,
                template: AiFunction::PrintProjectScope,
            })),
        }
    );
    manager.step(Event::ModelReplied(Ok("{scope}".to_string())));
    let step = manager.step(Event::ScopeDecoded(Some(ProjectScope {
        is_crud_required: false,
        is_user_login_and_logout: false,
        is_external_urls_required: false,
    })));
    assert_eq!(step, Step { effects: vec![], next: Next::Await(Request::ReadCodeTemplate) });
    assert_eq!(states(&manager), vec![AgentState::Finished, AgentState::Discovery]);
}

#[test]
fn failure_of_an_agent_ends_the_project() {
    let mut manager = ManagingAgent::new("a shop".to_string());
    manager.execute_project();
    manager.step(Event::ModelReplied(Ok("{scope}".to_string())));
    let step = manager.step(Event::ScopeDecoded(None));
    assert_eq!(step.next, Next::Aborted(AgentError::Decode));
    let step = manager.step(Event::Start);
    assert_eq!(step, Step { effects: vec![], next: Next::Aborted(AgentError::Decode) });
    assert_eq!(states(&manager), vec![AgentState::Discovery, AgentState::Discovery]);
    assert_eq!(manager.factsheet().backend_code, None);
}

#[test]
fn coordinator_without_agents_is_finished() {
    let mut manager = ManagingAgent::new("a shop".to_string());
    let step = manager.step(Event::Start);
    assert_eq!(step, Step { effects: vec![], next: Next::Finished });
}

#[test]
fn effects_of_the_last_step_of_an_agent_come_before_the_next_agent() {
    let mut manager = ManagingAgent::new("a shop".to_string());
    manager.add_agent(Agent::Backend(AgentBackendDeveloper::new()));
    manager.add_agent(Agent::Architect(AgentSolutionArchitect::new()));
    let mut step = manager.step(Event::Start);
    let mut last_effects: Vec<Effect> = Vec::new();
    loop {
        match step.next {
            Next::Await(Request::AskModel(ref asked))
                if asked.operation == AiFunction::PrintProjectScope =>
            {
                last_effects = step.effects;
                break;
            }
            Next::Await(ref request) => {
                let event = respond(request);
                step = manager.step(event);
            }
            other => panic!("the architect was not started: {:?}", other),
        }
    }
    assert_eq!(last_effects.last(), Some(&Effect::StopServer));
    assert_eq!(states(&manager), vec![AgentState::Finished, AgentState::Discovery]);
}
