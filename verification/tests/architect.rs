use auto_gippity::helpers::command_line::PrintCommand;
use auto_gippity::models::agent_basic::basic_agent::AgentState;
use auto_gippity::models::agents::agent_architect::{AgentSolutionArchitect, ArchitectWaiting};
use auto_gippity::models::agents::agent_protocol::{
    AgentError, AiFunction, Effect, Event, ModelRequest, Next, ProgressLine, Request, Step,
};
use auto_gippity::models::agents::agent_traits::{clone_texts, FactSheet, ProjectScope};
use auto_gippity::models::general::llm::GatewayError;

fn printed(command: PrintCommand, statement: &str) -> Effect {
    Effect::Print(ProgressLine {
        command,
        position: "Solutions Architect".to_string(),
        statement: statement.to_string(),
    })
}

fn scope(urls: bool) -> ProjectScope {
    ProjectScope {
        is_crud_required: true,
        is_user_login_and_logout: false,
        is_external_urls_required: urls,
    }
}

fn ask(function: AiFunction) -> Next {
    Next::Await(Request::AskModel(ModelRequest {
        context: "a weather site".to_string(),
        position: "Solutions Architect".to_string(),
        operation: function,
        template: function,
    }))
}

fn at_urls() -> (AgentSolutionArchitect, FactSheet) {
    let mut agent = AgentSolutionArchitect::new();
    let mut factsheet = FactSheet::new("a weather site".to_string());
    agent.step(&mut factsheet, Event::Start);
    agent.step(&mut factsheet, Event::ModelReplied(Ok("{scope}".to_string())));
    agent.step(&mut factsheet, Event::ScopeDecoded(Some(scope(true))));
    let step = agent.step(&mut factsheet, Event::ModelReplied(Ok("[urls]".to_string())));
    assert_eq!(step.next, Next::Await(Request::DecodeUrls("[urls]".to_string())));
    (agent, factsheet)
}

#[test]
fn new_architect_starts_in_discovery() {
    let agent = AgentSolutionArchitect::new();
    let attributes = agent.get_attributes_from_agents();
    assert_eq!(attributes.state, AgentState::Discovery);
    assert_eq!(attributes.position, "Solutions Architect");
    assert_eq!(
        attributes.objective,
        "Gathers information and design solutions for website development"
    );
    assert_eq!(agent.waiting(), ArchitectWaiting::Start);
    assert_eq!(agent.failure(), &None);
}

#[test]
fn scope_without_urls_finishes_the_architect() {
    let mut agent = AgentSolutionArchitect::new();
    let mut factsheet = FactSheet::new("a weather site".to_string());
    let step = agent.step(&mut factsheet, Event::Start);
    assert_eq!(step, Step { effects: vec![], next: ask(AiFunction::PrintProjectScope) });
    let step = agent.step(&mut factsheet, Event::ModelReplied(Ok("{scope}".to_string())));
    assert_eq!(step.next, Next::Await(Request::DecodeScope("{scope}".to_string())));
    let step = agent.step(&mut factsheet, Event::ScopeDecoded(Some(scope(false))));
    assert_eq!(step, Step { effects: vec![], next: Next::Finished });
    assert_eq!(factsheet.project_scope, Some(scope(false)));
    assert_eq!(factsheet.external_urls, None);
    assert_eq!(agent.state(), AgentState::Finished);
}

#[test]
fn scope_with_urls_asks_for_them_and_keeps_those_that_answer() {
    let (mut agent, mut factsheet) = at_urls();
    assert_eq!(factsheet.project_scope, Some(scope(true)));
    let urls = vec![
        "https://one.example".to_string(),
        "https://two.example".to_string(),
        "https://three.example".to_string(),
    ];
    let step = agent.step(&mut factsheet, Event::UrlsDecoded(Some(clone_texts(&urls))));
    assert_eq!(
        step,
        Step {
            effects: vec![printed(PrintCommand::UnitTest, "Testing URL Endpoint: https://one.example")],
            next: Next::Await(Request::ProbeUrl("https://one.example".to_string())),
        }
    );
    assert_eq!(factsheet.external_urls, Some(urls));
    assert_eq!(agent.state(), AgentState::UnitTesting);
    let step = agent.step(&mut factsheet, Event::Probed(Ok(200)));
    assert_eq!(step.next, Next::Await(Request::ProbeUrl("https://two.example".to_string())));
    let step = agent.step(&mut factsheet, Event::Probed(Ok(503)));
    assert_eq!(
        step,
        Step {
            effects: vec![printed(
                PrintCommand::UnitTest,
                "Testing URL Endpoint: https://three.example"
            )],
            next: Next::Await(Request::ProbeUrl("https://three.example".to_string())),
        }
    );
    let step = agent.step(&mut factsheet, Event::Probed(Err("dns failure".to_string())));
    assert_eq!(
        step,
        Step {
            effects: vec![printed(
                PrintCommand::Issue,
                "Error checking https://three.example: dns failure"
            )],
            next: Next::Finished,
        }
    );
    assert_eq!(
        factsheet.external_urls,
        Some(vec!["https://one.example".to_string(), "https://three.example".to_string()])
    );
    assert_eq!(agent.state(), AgentState::Finished);
}

#[test]
fn empty_list_of_urls_finishes_the_architect() {
    let (mut agent, mut factsheet) = at_urls();
    let step = agent.step(&mut factsheet, Event::UrlsDecoded(Some(vec![])));
    assert_eq!(step, Step { effects: vec![], next: Next::Finished });
    assert_eq!(factsheet.external_urls, Some(vec![]));
    assert_eq!(agent.state(), AgentState::Finished);
}

#[test]
fn architect_failures_are_fatal() {
    let mut agent = AgentSolutionArchitect::new();
    let mut factsheet = FactSheet::new("a weather site".to_string());
    agent.step(&mut factsheet, Event::Start);
    agent.step(&mut factsheet, Event::ModelReplied(Ok("{scope}".to_string())));
    let step = agent.step(&mut factsheet, Event::ScopeDecoded(None));
    assert_eq!(step.next, Next::Aborted(AgentError::Decode));
    assert_eq!(factsheet.project_scope, None);
    let again = agent.step(&mut factsheet, Event::ScopeDecoded(Some(scope(false))));
    assert_eq!(again.next, Next::Aborted(AgentError::Decode));

    let (mut agent, mut factsheet) = at_urls();
    let step = agent.step(&mut factsheet, Event::UrlsDecoded(None));
    assert_eq!(step.next, Next::Aborted(AgentError::Decode));

    let mut agent = AgentSolutionArchitect::new();
    let mut factsheet = FactSheet::new("a weather site".to_string());
    agent.step(&mut factsheet, Event::Start);
    let step = agent.step(&mut factsheet, Event::ModelReplied(Err(GatewayError::NoChoices)));
    assert_eq!(step.next, Next::Aborted(AgentError::Gateway(GatewayError::NoChoices)));

    let mut agent = AgentSolutionArchitect::new();
    let step = agent.step(&mut factsheet, Event::Probed(Ok(200)));
    assert_eq!(step.next, Next::Aborted(AgentError::UnexpectedEvent));
    assert_eq!(agent.failure(), &Some(AgentError::UnexpectedEvent));
}

#[test]
fn finished_architect_ignores_every_event() {
    let mut agent = AgentSolutionArchitect::new();
    let mut factsheet = FactSheet::new("a weather site".to_string());
    agent.step(&mut factsheet, Event::Start);
    agent.step(&mut factsheet, Event::ModelReplied(Ok("{scope}".to_string())));
    agent.step(&mut factsheet, Event::ScopeDecoded(Some(scope(false))));
    assert_eq!(agent.state(), AgentState::Finished);
    for event in [Event::Start, Event::ScopeDecoded(Some(scope(true))), Event::Probed(Ok(404))] {
        let step = agent.step(&mut factsheet, event);
        assert_eq!(step, Step { effects: vec![], next: Next::Finished });
        assert_eq!(agent.state(), AgentState::Finished);
        assert_eq!(factsheet.project_scope, Some(scope(false)));
    }
}
