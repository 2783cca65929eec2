use crate::helpers::command_line::PrintCommand;
use crate::models::agents::agent_traits::{ProjectScope, RouteObject, RouteView};
use crate::models::general::llm::{reply_view, GatewayError, GatewayErrorView};
use vstd::prelude::*;

verus! {

/// The functions that the model is asked to act as. Each stands for the
/// description of one function, which the driver keeps.
#[derive(PartialEq, Eq, Debug, Clone, Copy, Structural)]
pub enum AiFunction {
    ConvertUserInputToGoal,
    PrintProjectScope,
    PrintSiteUrls,
    PrintBackendWebserverCode,
    PrintImprovedWebserverCode,
    PrintFixedCode,
    PrintRestApiEndpoints,
}

impl AiFunction {
    /// The name of the function, which tags the progress line of a request.
    pub open spec fn name_text(self) -> Seq<char> {
        match self {
            AiFunction::ConvertUserInputToGoal => "convert_user_input_to_goal"@,
            AiFunction::PrintProjectScope => "print_project_scope"@,
            AiFunction::PrintSiteUrls => "print_site_urls"@,
            AiFunction::PrintBackendWebserverCode => "print_backend_webserver_code"@,
            AiFunction::PrintImprovedWebserverCode => "print_improved_webserver_code"@,
            AiFunction::PrintFixedCode => "print_fixed_code"@,
            AiFunction::PrintRestApiEndpoints => "print_rest_api_endpoints"@,
        }
    }

    /// The name of the function, which tags the progress line of a request.
    pub fn name(&self) -> (name: &'static str)
        ensures
            name@ == self.name_text(),
    {
        match self {
            AiFunction::ConvertUserInputToGoal => "convert_user_input_to_goal",
            AiFunction::PrintProjectScope => "print_project_scope",
            AiFunction::PrintSiteUrls => "print_site_urls",
            AiFunction::PrintBackendWebserverCode => "print_backend_webserver_code",
            AiFunction::PrintImprovedWebserverCode => "print_improved_webserver_code",
            AiFunction::PrintFixedCode => "print_fixed_code",
            AiFunction::PrintRestApiEndpoints => "print_rest_api_endpoints",
        }
    }
}

/// A request to the model: the context that is the input of the function,
/// the position of the agent that asks and the function whose name tags
/// the progress line, and the function whose description is sent.
#[derive(Debug, PartialEq)]
pub struct ModelRequest {
    pub context: String,
    pub position: String,
    pub operation: AiFunction,
    pub template: AiFunction,
}

pub struct ModelRequestView {
    pub context: Seq<char>,
    pub position: Seq<char>,
    pub operation: AiFunction,
    pub template: AiFunction,
}

impl View for ModelRequest {
    type V = ModelRequestView;

    open spec fn view(&self) -> ModelRequestView {
        ModelRequestView {
            context: self.context@,
            position: self.position@,
            operation: self.operation,
            template: self.template,
        }
    }
}

/// One progress line: its kind, the position of the agent that speaks and
/// the statement.
#[derive(Debug, PartialEq)]
pub struct ProgressLine {
    pub command: PrintCommand,
    pub position: String,
    pub statement: String,
}

pub struct ProgressLineView {
    pub command: PrintCommand,
    pub position: Seq<char>,
    pub statement: Seq<char>,
}

impl View for ProgressLine {
    type V = ProgressLineView;

    open spec fn view(&self) -> ProgressLineView {
        ProgressLineView {
            command: self.command,
            position: self.position@,
            statement: self.statement@,
        }
    }
}

/// Outside work that has no answer: the driver performs it and goes on.
#[derive(Debug, PartialEq)]
pub enum Effect {
    /// Print a progress line.
    Print(ProgressLine),
    /// Write the generated source of the server to its file.
    SaveBackendCode(String),
    /// Write the endpoint schema, as the model gave it, to its file.
    SaveApiEndpoints(String),
    /// Start the generated server as a process of its own.
    StartServer,
    /// Wait for so many seconds.
    Settle(u64),
    /// Kill the server process.
    StopServer,
}

pub enum EffectView {
    Print(ProgressLineView),
    SaveBackendCode(Seq<char>),
    SaveApiEndpoints(Seq<char>),
    StartServer,
    Settle(u64),
    StopServer,
}

impl View for Effect {
    type V = EffectView;

    open spec fn view(&self) -> EffectView {
        match self {
            Effect::Print(line) => EffectView::Print(line@),
            Effect::SaveBackendCode(code) => EffectView::SaveBackendCode(code@),
            Effect::SaveApiEndpoints(text) => EffectView::SaveApiEndpoints(text@),
            Effect::StartServer => EffectView::StartServer,
            Effect::Settle(seconds) => EffectView::Settle(*seconds),
            Effect::StopServer => EffectView::StopServer,
        }
    }
}

impl DeepView for Effect {
    type V = EffectView;

    open spec fn deep_view(&self) -> EffectView {
        self@
    }
}

/// Why an agent gave up. None of these is retried: the run ends.
#[derive(Debug, PartialEq, Eq)]
pub enum AgentError {
    /// The user declined to run the generated code.
    Declined,
    /// The build failed more often than the bug budget allows.
    TooManyBugs,
    /// The model gateway failed twice for one request.
    Gateway(GatewayError),
    /// The answer of the model could not be decoded.
    Decode,
    /// An event came that answers no request of the agent.
    UnexpectedEvent,
}

pub enum AgentErrorView {
    Declined,
    TooManyBugs,
    Gateway(GatewayErrorView),
    Decode,
    UnexpectedEvent,
}

impl View for AgentError {
    type V = AgentErrorView;

    open spec fn view(&self) -> AgentErrorView {
        match self {
            AgentError::Declined => AgentErrorView::Declined,
            AgentError::TooManyBugs => AgentErrorView::TooManyBugs,
            AgentError::Gateway(error) => AgentErrorView::Gateway(error@),
            AgentError::Decode => AgentErrorView::Decode,
            AgentError::UnexpectedEvent => AgentErrorView::UnexpectedEvent,
        }
    }
}

impl DeepView for AgentError {
    type V = AgentErrorView;

    open spec fn deep_view(&self) -> AgentErrorView {
        self@
    }
}

impl Clone for AgentError {
    fn clone(&self) -> (copy: Self)
        ensures
            copy@ == self@,
    {
        match self {
            AgentError::Declined => AgentError::Declined,
            AgentError::TooManyBugs => AgentError::TooManyBugs,
            AgentError::Gateway(error) => AgentError::Gateway(error.clone()),
            AgentError::Decode => AgentError::Decode,
            AgentError::UnexpectedEvent => AgentError::UnexpectedEvent,
        }
    }
}

/// Outside work whose answer the agent waits for.
#[derive(Debug, PartialEq)]
pub enum Request {
    /// Read the code template; answered by `FileRead`.
    ReadCodeTemplate,
    /// Read the generated source of the server; answered by `FileRead`.
    ReadExecMain,
    /// Run a task request against the model; answered by `ModelReplied`.
    AskModel(ModelRequest),
    /// Decode a text as a project scope; answered by `ScopeDecoded`.
    DecodeScope(String),
    /// Decode a text as a list of URLs; answered by `UrlsDecoded`.
    DecodeUrls(String),
    /// Decode a text as a list of routes; answered by `RoutesDecoded`.
    DecodeRoutes(String),
    /// Ask the user for consent to run the code; answered by `Confirmed`.
    ConfirmSafeCode,
    /// Build the generated project; answered by `BuildFinished`.
    BuildProject,
    /// Send a GET request to the URL; answered by `Probed`.
    ProbeUrl(String),
}

pub enum RequestView {
    ReadCodeTemplate,
    ReadExecMain,
    AskModel(ModelRequestView),
    DecodeScope(Seq<char>),
    DecodeUrls(Seq<char>),
    DecodeRoutes(Seq<char>),
    ConfirmSafeCode,
    BuildProject,
    ProbeUrl(Seq<char>),
}

impl View for Request {
    type V = RequestView;

    open spec fn view(&self) -> RequestView {
        match self {
            Request::ReadCodeTemplate => RequestView::ReadCodeTemplate,
            Request::ReadExecMain => RequestView::ReadExecMain,
            Request::AskModel(request) => RequestView::AskModel(request@),
            Request::DecodeScope(text) => RequestView::DecodeScope(text@),
            Request::DecodeUrls(text) => RequestView::DecodeUrls(text@),
            Request::DecodeRoutes(text) => RequestView::DecodeRoutes(text@),
            Request::ConfirmSafeCode => RequestView::ConfirmSafeCode,
            Request::BuildProject => RequestView::BuildProject,
            Request::ProbeUrl(url) => RequestView::ProbeUrl(url@),
        }
    }
}

/// How a step of an agent ends.
#[derive(Debug, PartialEq)]
pub enum Next {
    /// The agent waits for the answer to this request.
    Await(Request),
    /// The agent has reached `Finished`.
    Finished,
    /// The agent has given up.
    Aborted(AgentError),
}

pub enum NextView {
    Await(RequestView),
    Finished,
    Aborted(AgentErrorView),
}

impl View for Next {
    type V = NextView;

    open spec fn view(&self) -> NextView {
        match self {
            Next::Await(request) => NextView::Await(request@),
            Next::Finished => NextView::Finished,
            Next::Aborted(error) => NextView::Aborted(error@),
        }
    }
}

/// What an agent hands to its driver after an event: the effects to
/// perform, in this order, and then how the step ends.
#[derive(Debug, PartialEq)]
pub struct Step {
    pub effects: Vec<Effect>,
    pub next: Next,
}

pub struct StepView {
    pub effects: Seq<EffectView>,
    pub next: NextView,
}

impl View for Step {
    type V = StepView;

    open spec fn view(&self) -> StepView {
        StepView { effects: self.effects.deep_view(), next: self.next@ }
    }
}

/// What the driver tells an agent: that it may begin, or the answer to
/// the request that the agent waits for.
#[derive(Debug, PartialEq)]
pub enum Event {
    /// Begin the work of the current state.
    Start,
    /// The contents of the file that was read.
    FileRead(String),
    /// The text of the model, or the failure of the second attempt.
    ModelReplied(Result<String, GatewayError>),
    /// The decoded scope, or `None` where the text is no scope.
    ScopeDecoded(Option<ProjectScope>),
    /// The decoded URLs, or `None` where the text is no list of URLs.
    UrlsDecoded(Option<Vec<String>>),
    /// The decoded routes, or `None` where the text is no list of routes.
    RoutesDecoded(Option<Vec<RouteObject>>),
    /// Whether the user agreed to run the code.
    Confirmed(bool),
    /// The build succeeded, or failed with this text on its error stream.
    BuildFinished(Result<(), String>),
    /// The status code of the answer, or the failure of the connection.
    Probed(Result<u16, String>),
}

pub enum EventView {
    Start,
    FileRead(Seq<char>),
    ModelReplied(Result<Seq<char>, GatewayErrorView>),
    ScopeDecoded(Option<ProjectScope>),
    UrlsDecoded(Option<Seq<Seq<char>>>),
    RoutesDecoded(Option<Seq<RouteView>>),
    Confirmed(bool),
    BuildFinished(Result<(), Seq<char>>),
    Probed(Result<u16, Seq<char>>),
}

/// A result whose error is a text, with that text as a sequence.
pub open spec fn failure_text_view<T>(result: Result<T, String>) -> Result<T, Seq<char>> {
    match result {
        Ok(value) => Ok(value),
        Err(text) => Err(text@),
    }
}

impl View for Event {
    type V = EventView;

    open spec fn view(&self) -> EventView {
        match self {
            Event::Start => EventView::Start,
            Event::FileRead(text) => EventView::FileRead(text@),
            Event::ModelReplied(reply) => EventView::ModelReplied(reply_view(*reply)),
            Event::ScopeDecoded(scope) => EventView::ScopeDecoded(*scope),
            Event::UrlsDecoded(urls) => EventView::UrlsDecoded(urls.deep_view()),
            Event::RoutesDecoded(routes) => EventView::RoutesDecoded(routes.deep_view()),
            Event::Confirmed(agreed) => EventView::Confirmed(*agreed),
            Event::BuildFinished(outcome) => EventView::BuildFinished(failure_text_view(*outcome)),
            Event::Probed(outcome) => EventView::Probed(failure_text_view(*outcome)),
        }
    }
}

/// The effect that prints `statement` as a line of kind `command`.
pub open spec fn line(command: PrintCommand, position: Seq<char>, statement: Seq<char>)
    -> EffectView {
    EffectView::Print(ProgressLineView { command, position, statement })
}

/// An empty list of effects.
pub(crate) fn no_effects() -> (effects: Vec<Effect>)
    ensures
        effects.deep_view() == Seq::<EffectView>::empty(),
{
    let effects: Vec<Effect> = Vec::new();
    assert(effects.deep_view() =~= Seq::<EffectView>::empty());
    effects
}

/// Puts `effect` at the end of `effects`.
pub(crate) fn push_effect(effects: &mut Vec<Effect>, effect: Effect)
    ensures
        final(effects).deep_view() == old(effects).deep_view().push(effect@),
{
    effects.push(effect);
    assert(effects.deep_view() =~= old(effects).deep_view().push(effect@));
}

/// The effect that prints `statement` as a line of kind `command` of the
/// agent at `position`.
pub(crate) fn print_effect(command: PrintCommand, position: &String, statement: String) -> (effect:
    Effect)
    ensures
        effect@ == line(command, position@, statement@),
{
    Effect::Print(ProgressLine { command, position: position.clone(), statement })
}

} // verus!
