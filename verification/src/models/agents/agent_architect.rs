use crate::helpers::command_line::PrintCommand;
use crate::helpers::text::join_text;
use crate::models::agent_basic::basic_agent::{AgentState, BasicAgent, BasicAgentView};
use crate::models::agents::agent_protocol::{
    failure_text_view, line, no_effects, print_effect, push_effect, AgentError, AgentErrorView,
    AiFunction, Effect, EffectView, Event, EventView, ModelRequest, ModelRequestView, Next,
    NextView, Request, RequestView, Step, StepView,
};
use crate::models::agents::agent_traits::{clone_texts, FactSheet, FactSheetView, ProjectScope};
use vstd::prelude::*;
use vstd::string::StringExecFns;

verus! {

/// The answer that the solution architect waits for.
#[derive(PartialEq, Eq, Debug, Clone, Copy, Structural)]
pub enum ArchitectWaiting {
    /// Nothing is asked yet: the agent waits to be started.
    Start,
    /// The scope of the project, as the model words it.
    ScopeText,
    /// The decoded scope.
    Scope,
    /// The outside URLs of the project, as the model lists them.
    UrlsText,
    /// The decoded URLs.
    Urls,
    /// The outcome of the probe of one URL.
    Probe,
}

/// What a solution architect holds, with its texts as sequences.
pub struct ArchitectView {
    pub attributes: BasicAgentView,
    pub waiting: ArchitectWaiting,
    pub urls: Seq<Seq<char>>,
    pub kept: Seq<Seq<char>>,
    pub probe_index: nat,
    pub failure: Option<AgentErrorView>,
}

/// What one step of the solution architect leaves.
pub struct ArchitectOutcome {
    pub agent: ArchitectView,
    pub factsheet: FactSheetView,
    pub step: StepView,
}

/// The solution architect before its first step.
pub open spec fn initial_architect() -> ArchitectView {
    ArchitectView {
        attributes: BasicAgentView {
            objective: "Gathers information and design solutions for website development"@,
            position: "Solutions Architect"@,
            state: AgentState::Discovery,
            memory: Seq::empty(),
        },
        waiting: ArchitectWaiting::Start,
        urls: Seq::empty(),
        kept: Seq::empty(),
        probe_index: 0,
        failure: None,
    }
}

/// The request to the model that takes the description of the project as
/// its context.
pub open spec fn description_request(
    agent: ArchitectView,
    factsheet: FactSheetView,
    function: AiFunction,
) -> RequestView {
    RequestView::AskModel(
        ModelRequestView {
            context: factsheet.project_description,
            position: agent.attributes.position,
            operation: function,
            template: function,
        },
    )
}

/// The agent gives up with `error`.
pub open spec fn architect_abort(
    agent: ArchitectView,
    factsheet: FactSheetView,
    error: AgentErrorView,
) -> ArchitectOutcome {
    ArchitectOutcome {
        agent: ArchitectView { failure: Some(error), ..agent },
        factsheet,
        step: StepView { effects: Seq::empty(), next: NextView::Aborted(error) },
    }
}

/// The agent finishes.
pub open spec fn architect_finish(
    agent: ArchitectView,
    factsheet: FactSheetView,
    effects: Seq<EffectView>,
) -> ArchitectOutcome {
    ArchitectOutcome {
        agent: ArchitectView {
            attributes: BasicAgentView { state: AgentState::Finished, ..agent.attributes },
            waiting: ArchitectWaiting::Start,
            ..agent
        },
        factsheet,
        step: StepView { effects, next: NextView::Finished },
    }
}

/// The agent probes the next URL, or, when none is left, writes the URLs
/// that it kept to the fact sheet and finishes.
pub open spec fn architect_continue_checking(
    agent: ArchitectView,
    factsheet: FactSheetView,
    effects: Seq<EffectView>,
) -> ArchitectOutcome {
    if agent.probe_index < agent.urls.len() {
        let url = agent.urls[agent.probe_index as int];
        ArchitectOutcome {
            agent: ArchitectView {
                attributes: BasicAgentView {
                    state: AgentState::UnitTesting,
                    ..agent.attributes
                },
                waiting: ArchitectWaiting::Probe,
                ..agent
            },
            factsheet,
            step: StepView {
                effects: effects.push(
                    line(
                        PrintCommand::UnitTest,
                        agent.attributes.position,
                        "Testing URL Endpoint: "@ + url,
                    ),
                ),
                next: NextView::Await(RequestView::ProbeUrl(url)),
            },
        }
    } else {
        architect_finish(
            agent,
            FactSheetView { external_urls: Some(agent.kept), ..factsheet },
            effects,
        )
    }
}

/// What the agent does with the outcome of the probe of the current URL.
/// A URL that answers with a status other than 200 is dropped. A URL
/// whose probe failed is reported and kept.
pub open spec fn architect_after_probe(
    agent: ArchitectView,
    factsheet: FactSheetView,
    outcome: Result<u16, Seq<char>>,
) -> ArchitectOutcome {
    let url = agent.urls[agent.probe_index as int];
    let advanced = ArchitectView { probe_index: agent.probe_index + 1, ..agent };
    match outcome {
        Ok(status) => architect_continue_checking(
            if status == 200 {
                ArchitectView { kept: agent.kept.push(url), ..advanced }
            } else {
                advanced
            },
            factsheet,
            Seq::empty(),
        ),
        Err(failure) => architect_continue_checking(
            ArchitectView { kept: agent.kept.push(url), ..advanced },
            factsheet,
            Seq::<EffectView>::empty().push(
                line(
                    PrintCommand::Issue,
                    agent.attributes.position,
                    "Error checking "@ + url + ": "@ + failure,
                ),
            ),
        ),
    }
}

/// What the agent does with the decoded scope: the scope is written to
/// the fact sheet; where it asks for outside URLs the model is asked for
/// them, else the agent finishes.
pub open spec fn architect_after_scope(
    agent: ArchitectView,
    factsheet: FactSheetView,
    scope: ProjectScope,
) -> ArchitectOutcome {
    let stored = FactSheetView { project_scope: Some(scope), ..factsheet };
    if scope.is_external_urls_required {
        ArchitectOutcome {
            agent: ArchitectView { waiting: ArchitectWaiting::UrlsText, ..agent },
            factsheet: stored,
            step: StepView {
                effects: Seq::empty(),
                next: NextView::Await(
                    description_request(agent, stored, AiFunction::PrintSiteUrls),
                ),
            },
        }
    } else {
        architect_finish(agent, stored, Seq::empty())
    }
}

/// What the agent does when it is started: in `Discovery` it asks the
/// model for the scope, in `UnitTesting` it probes the URLs of the fact
/// sheet, and in `Working` it has nothing to do and finishes.
pub open spec fn architect_start(agent: ArchitectView, factsheet: FactSheetView)
    -> ArchitectOutcome {
    match agent.attributes.state {
        AgentState::Discovery => ArchitectOutcome {
            agent: ArchitectView { waiting: ArchitectWaiting::ScopeText, ..agent },
            factsheet,
            step: StepView {
                effects: Seq::empty(),
                next: NextView::Await(
                    description_request(agent, factsheet, AiFunction::PrintProjectScope),
                ),
            },
        },
        AgentState::UnitTesting => match factsheet.external_urls {
            Some(urls) => architect_continue_checking(
                ArchitectView { urls, kept: Seq::empty(), probe_index: 0, ..agent },
                factsheet,
                Seq::empty(),
            ),
            None => architect_abort(agent, factsheet, AgentErrorView::UnexpectedEvent),
        },
        _ => architect_finish(agent, factsheet, Seq::empty()),
    }
}

/// The transition function of the solution architect.
///
/// An agent that has given up stays as it is and reports its failure
/// again. An agent that is `Finished` stays as it is. An agent in the
/// state `Error`, which no step enters, gives up. An event that does not
/// answer what the agent waits for makes it give up.
pub open spec fn architect_step(agent: ArchitectView, factsheet: FactSheetView, event: EventView)
    -> ArchitectOutcome {
    if agent.failure is Some {
        ArchitectOutcome {
            agent,
            factsheet,
            step: StepView {
                effects: Seq::empty(),
                next: NextView::Aborted(agent.failure->Some_0),
            },
        }
    } else if agent.attributes.state == AgentState::Finished {
        ArchitectOutcome {
            agent,
            factsheet,
            step: StepView { effects: Seq::empty(), next: NextView::Finished },
        }
    } else if agent.attributes.state == AgentState::Error {
        architect_abort(agent, factsheet, AgentErrorView::UnexpectedEvent)
    } else {
        match (agent.waiting, event) {
            (ArchitectWaiting::Start, EventView::Start) => architect_start(agent, factsheet),
            (ArchitectWaiting::ScopeText, EventView::ModelReplied(Ok(text))) => ArchitectOutcome {
                agent: ArchitectView { waiting: ArchitectWaiting::Scope, ..agent },
                factsheet,
                step: StepView {
                    effects: Seq::empty(),
                    next: NextView::Await(RequestView::DecodeScope(text)),
                },
            },
            (ArchitectWaiting::ScopeText, EventView::ModelReplied(Err(error))) => architect_abort(
                agent,
                factsheet,
                AgentErrorView::Gateway(error),
            ),
            (ArchitectWaiting::Scope, EventView::ScopeDecoded(Some(scope))) =>
                architect_after_scope(agent, factsheet, scope),
            (ArchitectWaiting::Scope, EventView::ScopeDecoded(None)) => architect_abort(
                agent,
                factsheet,
                AgentErrorView::Decode,
            ),
            (ArchitectWaiting::UrlsText, EventView::ModelReplied(Ok(text))) => ArchitectOutcome {
                agent: ArchitectView { waiting: ArchitectWaiting::Urls, ..agent },
                factsheet,
                step: StepView {
                    effects: Seq::empty(),
                    next: NextView::Await(RequestView::DecodeUrls(text)),
                },
            },
            (ArchitectWaiting::UrlsText, EventView::ModelReplied(Err(error))) => architect_abort(
                agent,
                factsheet,
                AgentErrorView::Gateway(error),
            ),
            (ArchitectWaiting::Urls, EventView::UrlsDecoded(Some(urls))) =>
                architect_continue_checking(
                ArchitectView { urls, kept: Seq::empty(), probe_index: 0, ..agent },
                FactSheetView { external_urls: Some(urls), ..factsheet },
                Seq::empty(),
            ),
            (ArchitectWaiting::Urls, EventView::UrlsDecoded(None)) => architect_abort(
                agent,
                factsheet,
                AgentErrorView::Decode,
            ),
            (ArchitectWaiting::Probe, EventView::Probed(outcome)) => if agent.probe_index
                < agent.urls.len() {
                architect_after_probe(agent, factsheet, outcome)
            } else {
                architect_abort(agent, factsheet, AgentErrorView::UnexpectedEvent)
            },
            _ => architect_abort(agent, factsheet, AgentErrorView::UnexpectedEvent),
        }
    }
}

/// The solution architect: it has the model judge the scope of the
/// project and name the outside URLs that the project needs, and keeps
/// the URLs that answer.
#[derive(Debug)]
pub struct AgentSolutionArchitect {
    attributes: BasicAgent,
    waiting: ArchitectWaiting,
    urls: Vec<String>,
    kept: Vec<String>,
    probe_index: usize,
    failure: Option<AgentError>,
}

impl View for AgentSolutionArchitect {
    type V = ArchitectView;

    closed spec fn view(&self) -> ArchitectView {
        ArchitectView {
            attributes: self.attributes@,
            waiting: self.waiting,
            urls: self.urls.deep_view(),
            kept: self.kept.deep_view(),
            probe_index: self.probe_index as nat,
            failure: self.failure.deep_view(),
        }
    }
}

/// Puts `text` at the end of `texts`.
fn push_text(texts: &mut Vec<String>, text: String)
    ensures
        final(texts).deep_view() == old(texts).deep_view().push(text@),
{
    texts.push(text);
    assert(texts.deep_view() =~= old(texts).deep_view().push(text@));
}

/// An empty list of texts.
fn no_texts() -> (texts: Vec<String>)
    ensures
        texts.deep_view() == Seq::<Seq<char>>::empty(),
{
    let texts: Vec<String> = Vec::new();
    assert(texts.deep_view() =~= Seq::<Seq<char>>::empty());
    texts
}

impl AgentSolutionArchitect {
    /// A solution architect that has not begun.
    pub fn new() -> (agent: Self)
        ensures
            agent@ == initial_architect(),
    {
        let attributes = BasicAgent::new(
            String::from_str("Gathers information and design solutions for website development"),
            String::from_str("Solutions Architect"),
        );
        AgentSolutionArchitect {
            attributes,
            waiting: ArchitectWaiting::Start,
            urls: no_texts(),
            kept: no_texts(),
            probe_index: 0,
            failure: None,
        }
    }

    /// The attributes of the agent.
    pub fn get_attributes_from_agents(&self) -> (attributes: &BasicAgent)
        ensures
            attributes@ == self@.attributes,
    {
        &self.attributes
    }

    /// The state of the agent.
    pub fn state(&self) -> (state: AgentState)
        ensures
            state == self@.attributes.state,
    {
        self.attributes.state
    }

    /// The answer that the agent waits for.
    pub fn waiting(&self) -> (waiting: ArchitectWaiting)
        ensures
            waiting == self@.waiting,
    {
        self.waiting
    }

    /// Why the agent gave up, if it did.
    pub fn failure(&self) -> (failure: &Option<AgentError>)
        ensures
            failure.deep_view() == self@.failure,
    {
        &self.failure
    }

    fn abort(&mut self, factsheet: &FactSheet, error: AgentError) -> (step: Step)
        ensures
            final(self)@ == architect_abort(old(self)@, factsheet@, error@).agent,
            step@ == architect_abort(old(self)@, factsheet@, error@).step,
    {
        self.failure = Some(error.clone());
        Step { effects: no_effects(), next: Next::Aborted(error) }
    }

    fn finish(&mut self, factsheet: &FactSheet, effects: Vec<Effect>) -> (step: Step)
        ensures
            final(self)@ == architect_finish(old(self)@, factsheet@, effects.deep_view()).agent,
            step@ == architect_finish(old(self)@, factsheet@, effects.deep_view()).step,
    {
        self.attributes.state = AgentState::Finished;
        self.waiting = ArchitectWaiting::Start;
        Step { effects, next: Next::Finished }
    }

    fn ask_with_description(&self, factsheet: &FactSheet, function: AiFunction) -> (request:
        Request)
        ensures
            request@ == description_request(self@, factsheet@, function),
    {
        Request::AskModel(
            ModelRequest {
                context: factsheet.project_description.clone(),
                position: self.attributes.position.clone(),
                operation: function,
                template: function,
            },
        )
    }

    fn continue_checking(
        &mut self,
        factsheet: &mut FactSheet,
        effects: Vec<Effect>,
    ) -> (step: Step)
        ensures
            final(self)@ == architect_continue_checking(
                old(self)@,
                old(factsheet)@,
                effects.deep_view(),
            ).agent,
            final(factsheet)@ == architect_continue_checking(
                old(self)@,
                old(factsheet)@,
                effects.deep_view(),
            ).factsheet,
            step@ == architect_continue_checking(
                old(self)@,
                old(factsheet)@,
                effects.deep_view(),
            ).step,
    {
        let mut effects = effects;
        if self.probe_index < self.urls.len() {
            let url = self.urls[self.probe_index].clone();
            push_effect(
                &mut effects,
                print_effect(
                    PrintCommand::UnitTest,
                    &self.attributes.position,
                    join_text("Testing URL Endpoint: ", url.as_str()),
                ),
            );
            self.attributes.state = AgentState::UnitTesting;
            self.waiting = ArchitectWaiting::Probe;
            Step { effects, next: Next::Await(Request::ProbeUrl(url)) }
        } else {
            factsheet.external_urls = Some(clone_texts(&self.kept));
            self.finish(factsheet, effects)
        }
    }

    fn after_probe(&mut self, factsheet: &mut FactSheet, outcome: Result<u16, String>) -> (step:
        Step)
        requires
            old(self).probe_index < old(self).urls.len(),
        ensures
            final(self)@ == architect_after_probe(
                old(self)@,
                old(factsheet)@,
                failure_text_view(outcome),
            ).agent,
            final(factsheet)@ == architect_after_probe(
                old(self)@,
                old(factsheet)@,
                failure_text_view(outcome),
            ).factsheet,
            step@ == architect_after_probe(
                old(self)@,
                old(factsheet)@,
                failure_text_view(outcome),
            ).step,
    {
        let mut effects = no_effects();
        let url = self.urls[self.probe_index].clone();
        match outcome {
            Ok(status) => {
                if status == 200 {
                    push_text(&mut self.kept, url);
                }
            },
            Err(failure) => {
                let mut statement = join_text("Error checking ", url.as_str());
                statement.append(": ");
                statement.append(failure.as_str());
                push_effect(
                    &mut effects,
                    print_effect(PrintCommand::Issue, &self.attributes.position, statement),
                );
                push_text(&mut self.kept, url);
            },
        }
        self.probe_index += 1;
        self.continue_checking(factsheet, effects)
    }

    fn begin_checking(&mut self, factsheet: &mut FactSheet, urls: Vec<String>) -> (step: Step)
        ensures
            final(self)@ == architect_continue_checking(
                ArchitectView {
                    urls: urls.deep_view(),
                    kept: Seq::empty(),
                    probe_index: 0,
                    ..old(self)@
                },
                old(factsheet)@,
                Seq::empty(),
            ).agent,
            final(factsheet)@ == architect_continue_checking(
                ArchitectView {
                    urls: urls.deep_view(),
                    kept: Seq::empty(),
                    probe_index: 0,
                    ..old(self)@
                },
                old(factsheet)@,
                Seq::empty(),
            ).factsheet,
            step@ == architect_continue_checking(
                ArchitectView {
                    urls: urls.deep_view(),
                    kept: Seq::empty(),
                    probe_index: 0,
                    ..old(self)@
                },
                old(factsheet)@,
                Seq::empty(),
            ).step,
    {
        self.urls = urls;
        self.kept = no_texts();
        self.probe_index = 0;
        self.continue_checking(factsheet, no_effects())
    }

    fn start(&mut self, factsheet: &mut FactSheet) -> (step: Step)
        ensures
            final(self)@ == architect_start(old(self)@, old(factsheet)@).agent,
            final(factsheet)@ == architect_start(old(self)@, old(factsheet)@).factsheet,
            step@ == architect_start(old(self)@, old(factsheet)@).step,
    {
        match self.attributes.state {
            AgentState::Discovery => {
                self.waiting = ArchitectWaiting::ScopeText;
                Step {
                    effects: no_effects(),
                    next: Next::Await(
                        self.ask_with_description(factsheet, AiFunction::PrintProjectScope),
                    ),
                }
            },
            AgentState::UnitTesting => {
                let listed = match &factsheet.external_urls {
                    Some(urls) => Some(clone_texts(urls)),
                    None => None,
                };
                match listed {
                    Some(urls) => self.begin_checking(factsheet, urls),
                    None => self.abort(factsheet, AgentError::UnexpectedEvent),
                }
            },
            _ => self.finish(factsheet, no_effects()),
        }
    }

    /// One step of the agent: takes the event that the driver reports,
    /// changes the agent and the fact sheet, and says what the driver is
    /// to do next. The step is exactly what [`architect_step`] describes.
    pub fn step(&mut self, factsheet: &mut FactSheet, event: Event) -> (step: Step)
        ensures
            final(self)@ == architect_step(old(self)@, old(factsheet)@, event@).agent,
            final(factsheet)@ == architect_step(old(self)@, old(factsheet)@, event@).factsheet,
            step@ == architect_step(old(self)@, old(factsheet)@, event@).step,
    {
        match &self.failure {
            Some(error) => {
                return Step { effects: no_effects(), next: Next::Aborted(error.clone()) };
            },
            None => {},
        }
        if self.attributes.state == AgentState::Finished {
            return Step { effects: no_effects(), next: Next::Finished };
        }
        if self.attributes.state == AgentState::Error {
            return self.abort(factsheet, AgentError::UnexpectedEvent);
        }
        match self.waiting {
            ArchitectWaiting::Start => match event {
                Event::Start => self.start(factsheet),
                _ => self.abort(factsheet, AgentError::UnexpectedEvent),
            },
            ArchitectWaiting::ScopeText => match event {
                Event::ModelReplied(Ok(text)) => {
                    self.waiting = ArchitectWaiting::Scope;
                    Step { effects: no_effects(), next: Next::Await(Request::DecodeScope(text)) }
                },
                Event::ModelReplied(Err(error)) => self.abort(
                    factsheet,
                    AgentError::Gateway(error),
                ),
                _ => self.abort(factsheet, AgentError::UnexpectedEvent),
            },
            ArchitectWaiting::Scope => match event {
                Event::ScopeDecoded(Some(scope)) => {
                    factsheet.project_scope = Some(scope);
                    if scope.is_external_urls_required {
                        self.waiting = ArchitectWaiting::UrlsText;
                        Step {
                            effects: no_effects(),
                            next: Next::Await(
                                self.ask_with_description(factsheet, AiFunction::PrintSiteUrls),
                            ),
                        }
                    } else {
                        self.finish(factsheet, no_effects())
                    }
                },
                Event::ScopeDecoded(None) => self.abort(factsheet, AgentError::Decode),
                _ => self.abort(factsheet, AgentError::UnexpectedEvent),
            },
            ArchitectWaiting::UrlsText => match event {
                Event::ModelReplied(Ok(text)) => {
                    self.waiting = ArchitectWaiting::Urls;
                    Step { effects: no_effects(), next: Next::Await(Request::DecodeUrls(text)) }
                },
                Event::ModelReplied(Err(error)) => self.abort(
                    factsheet,
                    AgentError::Gateway(error),
                ),
                _ => self.abort(factsheet, AgentError::UnexpectedEvent),
            },
            ArchitectWaiting::Urls => match event {
                Event::UrlsDecoded(Some(urls)) => {
                    factsheet.external_urls = Some(clone_texts(&urls));
                    self.begin_checking(factsheet, urls)
                },
                Event::UrlsDecoded(None) => self.abort(factsheet, AgentError::Decode),
                _ => self.abort(factsheet, AgentError::UnexpectedEvent),
            },
            ArchitectWaiting::Probe => match event {
                Event::Probed(outcome) => {
                    if self.probe_index < self.urls.len() {
                        self.after_probe(factsheet, outcome)
                    } else {
                        self.abort(factsheet, AgentError::UnexpectedEvent)
                    }
                },
                _ => self.abort(factsheet, AgentError::UnexpectedEvent),
            },
        }
    }
}

/// A new solution architect starts in `Discovery`.
pub proof fn lemma_architect_starts_in_discovery()
    ensures
        initial_architect().attributes.state == AgentState::Discovery,
{
}

/// `Finished` is terminal: a step of a finished architect changes neither
/// the agent nor the fact sheet and asks for no effect.
pub proof fn lemma_architect_finished_is_terminal(
    agent: ArchitectView,
    factsheet: FactSheetView,
    event: EventView,
)
    requires
        agent.attributes.state == AgentState::Finished,
    ensures
        architect_step(agent, factsheet, event).agent == agent,
        architect_step(agent, factsheet, event).factsheet == factsheet,
        architect_step(agent, factsheet, event).step.effects == Seq::<EffectView>::empty(),
        agent.failure is None ==> architect_step(agent, factsheet, event).step.next
            == NextView::Finished,
{
}

/// No step of the architect enters the state `Error`.
pub proof fn lemma_architect_never_enters_error(
    agent: ArchitectView,
    factsheet: FactSheetView,
    event: EventView,
)
    requires
        agent.attributes.state != AgentState::Error,
    ensures
        architect_step(agent, factsheet, event).agent.attributes.state != AgentState::Error,
{
}

/// What a step of the architect may change of the fact sheet: never the
/// description, the code or the endpoints.
pub proof fn lemma_architect_factsheet_changes(
    agent: ArchitectView,
    factsheet: FactSheetView,
    event: EventView,
)
    ensures
        ({
            let after = architect_step(agent, factsheet, event).factsheet;
            &&& after.project_description == factsheet.project_description
            &&& after.backend_code == factsheet.backend_code
            &&& after.api_endpoint_schema == factsheet.api_endpoint_schema
        }),
{
}

} // verus!
