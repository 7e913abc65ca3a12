//! The backend developer: the agent that has server code written, built,
//! repaired, run and probed. It performs no input or output itself. Every
//! call of [`AgentBackendDeveloper::advance`] takes what happened outside
//! and answers with what is to be done next.

use vstd::prelude::*;
use crate::agent::{AgentState, BasicAgent};
use crate::capability::Capability;
use crate::command_line::PrintCommand;
use crate::context::{
    write_endpoints_context, write_fix_code_context, write_improved_code_context,
    write_initial_code_context,
};
use crate::fact_sheet::{checkable_routes, FactSheet, RouteObject};
use crate::model::{
    advance_model, route_paths, AgentView, Outcome, PendingView, BUILDING_PROJECT,
    BUILD_SUCCESSFUL, LAUNCHING_TESTS, MAX_BUGS, OBJECTIVE, POSITION, REQUESTING_INPUT,
    STARTING_SERVER, TESTING_COMPLETE, TOO_MANY_BUGS,
};
use crate::protocol::{AgentError, Effect, Event, Next, Query, Step};
use crate::request::{RequestVerdict, TaskRequest};
use crate::validator::{
    classify_probe, failure_message, probe_url, testing_message, warning_message, ProbeOutcome,
    ProbeVerdict, PROBE_TIMEOUT_SECONDS, WARM_UP_SECONDS,
};

verus! {

/// What the agent waits for. See [`PendingView`].
#[derive(Debug, Clone, PartialEq)]
pub enum Pending {
    Nothing,
    Template,
    Model(TaskRequest),
    Confirmation,
    Build,
    Source,
    Decoding { schema: String },
    Spawn { schema: String, routes: Vec<String> },
    Probe { schema: String, routes: Vec<String>, index: usize },
    Stopped,
}

impl View for Pending {
    type V = PendingView;

    open spec fn view(&self) -> PendingView {
        match self {
            Pending::Nothing => PendingView::Nothing,
            Pending::Template => PendingView::Template,
            Pending::Model(request) => PendingView::Model(request@),
            Pending::Confirmation => PendingView::Confirmation,
            Pending::Build => PendingView::Build,
            Pending::Source => PendingView::Source,
            Pending::Decoding { schema } => PendingView::Decoding { schema: schema@ },
            Pending::Spawn { schema, routes } => PendingView::Spawn {
                schema: schema@,
                routes: routes.deep_view(),
            },
            Pending::Probe { schema, routes, index } => PendingView::Probe {
                schema: schema@,
                routes: routes.deep_view(),
                index: *index as nat,
            },
            Pending::Stopped => PendingView::Stopped,
        }
    }
}

/// The agent that develops the backend of a web server.
#[derive(Debug)]
pub struct AgentBackendDeveloper {
    attributes: BasicAgent,
    bug_errors: Option<String>,
    bug_count: u8,
    pending: Pending,
}

impl View for AgentBackendDeveloper {
    type V = AgentView;

    closed spec fn view(&self) -> AgentView {
        AgentView {
            attributes: self.attributes@,
            bug_errors: self.bug_errors.deep_view(),
            bug_count: self.bug_count as nat,
            pending: self.pending@,
        }
    }
}

fn push_effect(effects: &mut Vec<Effect>, effect: Effect)
    ensures
        final(effects).deep_view() == old(effects).deep_view().push(effect@),
{
    effects.push(effect);
    assert(effects.deep_view() =~= old(effects).deep_view().push(effect@));
}

fn no_effects() -> (effects: Vec<Effect>)
    ensures
        effects.deep_view() == Seq::<crate::protocol::EffectView>::empty(),
{
    let effects: Vec<Effect> = Vec::new();
    assert(effects.deep_view() =~= Seq::<crate::protocol::EffectView>::empty());
    effects
}

/// Collects the paths of the routes, in their order.
fn paths_of(routes: &Vec<RouteObject>) -> (paths: Vec<String>)
    ensures
        paths.deep_view() == route_paths(routes.deep_view()),
{
    let mut paths: Vec<String> = Vec::new();
    let mut index: usize = 0;
    while index < routes.len()
        invariant
            index <= routes.len(),
            paths.len() == index,
            forall|k: int| 0 <= k < index ==> paths[k]@ == routes[k]@.route,
        decreases routes.len() - index,
    {
        paths.push(routes[index].route.clone());
        index += 1;
    }
    assert(paths.deep_view() =~= route_paths(routes.deep_view()));
    paths
}

impl AgentBackendDeveloper {
    #[verifier::type_invariant]
    spec fn well_formed(&self) -> bool {
        self@.wf()
    }

    /// Creates the agent: in discovery, without bugs, waiting to be started.
    pub fn new() -> (agent: AgentBackendDeveloper)
        ensures
            agent@ == AgentView::fresh(),
            agent@.wf(),
    {
        let attributes = BasicAgent {
            objective: String::from_str(OBJECTIVE),
            position: String::from_str(POSITION),
            state: AgentState::Discovery,
            memory: Vec::new(),
        };
        assert(attributes.memory.deep_view() =~= Seq::<crate::message::MessageView>::empty());
        AgentBackendDeveloper {
            attributes,
            bug_errors: None,
            bug_count: 0,
            pending: Pending::Nothing,
        }
    }

    /// The attributes that the agent shares with every other agent.
    pub fn get_attributes_from_agent(&self) -> (attributes: &BasicAgent)
        ensures
            attributes@ == self@.attributes,
    {
        &self.attributes
    }

    /// The state that the agent is in.
    pub fn state(&self) -> (state: AgentState)
        ensures
            state == self@.attributes.state,
    {
        self.attributes.state
    }

    /// How many builds failed since the last one that succeeded.
    pub fn bug_count(&self) -> (count: u8)
        ensures
            count == self@.bug_count,
            count <= MAX_BUGS + 1,
    {
        proof {
            use_type_invariant(self);
        }
        self.bug_count
    }

    /// What the last failed build reported, if a build has failed.
    pub fn bug_errors(&self) -> (report: &Option<String>)
        ensures
            report.deep_view() == self@.bug_errors,
    {
        &self.bug_errors
    }

    /// Whether the agent waits for the answer to a query.
    pub fn is_waiting(&self) -> (waiting: bool)
        ensures
            waiting == !(self@.pending is Nothing || self@.pending is Stopped),
    {
        match &self.pending {
            Pending::Nothing => false,
            Pending::Stopped => false,
            _ => true,
        }
    }

    /// Whether the run was aborted.
    pub fn is_stopped(&self) -> (stopped: bool)
        ensures
            stopped == (self@.pending is Stopped),
    {
        match &self.pending {
            Pending::Stopped => true,
            _ => false,
        }
    }

    fn announce(&self, kind: PrintCommand, statement: &str) -> (effect: Effect)
        ensures
            effect@ == self@.announces(kind, statement@),
    {
        Effect::Announce {
            kind,
            position: self.attributes.position.clone(),
            statement: String::from_str(statement),
        }
    }

    fn abort(&mut self, effects: Vec<Effect>, error: AgentError) -> (step: Step)
        requires
            old(self)@.pending is Stopped,
            old(self)@.wf(),
        ensures
            final(self)@ == old(self)@,
            step@ == (crate::protocol::StepView {
                effects: effects.deep_view(),
                next: crate::protocol::NextView::Abort(error),
            }),
    {
        Step { effects, next: Next::Abort(error) }
    }

    fn ask_model(&mut self, sheet: &FactSheet, effects: Vec<Effect>, request: TaskRequest) -> (step:
        Step)
        requires
            old(self)@.pending is Stopped,
            old(self)@.bug_count <= MAX_BUGS,
            old(self)@.awaiting(PendingView::Model(request@)).wf(),
        ensures
            (Outcome { agent: final(self)@, sheet: sheet@, step: step@ }) == crate::model::asked_model(
                old(self)@,
                sheet@,
                effects.deep_view(),
                request@,
            ),
    {
        let mut effects = effects;
        let notice = self.announce(PrintCommand::AICall, request.capability.name());
        push_effect(&mut effects, notice);
        let message = request.message.duplicate();
        self.pending = Pending::Model(request);
        Step { effects, next: Next::Ask(Query::CallModel(message)) }
    }

    fn rewrite_request(&self, sheet: &FactSheet) -> (request: TaskRequest)
        ensures
            request@ == self@.rewrite_request(sheet@),
    {
        if self.bug_count == 0 {
            let context = write_improved_code_context(sheet);
            TaskRequest::new(Capability::PrintImprovedWebserverCode, context.as_str())
        } else {
            let context = write_fix_code_context(sheet, &self.bug_errors);
            TaskRequest::new(Capability::PrintFixedCode, context.as_str())
        }
    }

    fn enter(&mut self, sheet: &FactSheet, effects: Vec<Effect>) -> (step: Step)
        requires
            old(self)@.pending is Stopped,
            old(self)@.bug_count <= MAX_BUGS,
        ensures
            (Outcome { agent: final(self)@, sheet: sheet@, step: step@ }) == crate::model::entered(
                old(self)@,
                sheet@,
                effects.deep_view(),
            ),
    {
        let mut effects = effects;
        match self.attributes.state {
            AgentState::Discovery => {
                self.pending = Pending::Template;
                Step { effects, next: Next::Ask(Query::ReadCodeTemplate) }
            },
            AgentState::Working => {
                let request = self.rewrite_request(sheet);
                self.ask_model(sheet, effects, request)
            },
            AgentState::UnitTesting => {
                let notice = self.announce(PrintCommand::UnitTest, REQUESTING_INPUT);
                push_effect(&mut effects, notice);
                self.pending = Pending::Confirmation;
                Step { effects, next: Next::Ask(Query::ConfirmSafeCode) }
            },
            AgentState::Finished => {
                self.pending = Pending::Nothing;
                Step { effects, next: Next::Finished }
            },
        }
    }

    fn finish_testing(&mut self, sheet: &FactSheet, schema: String, effects: Vec<Effect>) -> (step:
        Step)
        requires
            old(self)@.pending is Stopped,
            old(self)@.bug_count <= MAX_BUGS,
        ensures
            (Outcome { agent: final(self)@, sheet: sheet@, step: step@ })
                == crate::model::finished_testing(old(self)@, sheet@, schema@, effects.deep_view()),
    {
        let mut effects = effects;
        push_effect(&mut effects, Effect::SaveApiEndpoints(schema));
        let notice = self.announce(PrintCommand::UnitTest, TESTING_COMPLETE);
        push_effect(&mut effects, notice);
        push_effect(&mut effects, Effect::KillServer);
        self.attributes.state = AgentState::Finished;
        self.pending = Pending::Nothing;
        Step { effects, next: Next::Finished }
    }

    fn probe(
        &mut self,
        sheet: &FactSheet,
        schema: String,
        routes: Vec<String>,
        index: usize,
        effects: Vec<Effect>,
    ) -> (step: Step)
        requires
            old(self)@.pending is Stopped,
            old(self)@.bug_count <= MAX_BUGS,
            old(self)@.attributes.state == AgentState::UnitTesting,
        ensures
            (Outcome { agent: final(self)@, sheet: sheet@, step: step@ }) == crate::model::probing(
                old(self)@,
                sheet@,
                schema@,
                routes.deep_view(),
                index as nat,
                effects.deep_view(),
            ),
    {
        if index < routes.len() {
            let mut effects = effects;
            let statement = testing_message(routes[index].as_str());
            let notice = self.announce(PrintCommand::UnitTest, statement.as_str());
            push_effect(&mut effects, notice);
            let url = probe_url(routes[index].as_str());
            self.pending = Pending::Probe { schema, routes, index };
            Step {
                effects,
                next: Next::Ask(Query::Probe { url, timeout_seconds: PROBE_TIMEOUT_SECONDS }),
            }
        } else {
            self.finish_testing(sheet, schema, effects)
        }
    }

    fn react_to_probe(&self, route: &str, outcome: &ProbeOutcome) -> (effects: Vec<Effect>)
        ensures
            effects.deep_view() == crate::model::probe_reaction(self@, route@, outcome@),
    {
        let mut effects = no_effects();
        match outcome {
            ProbeOutcome::Status(_) => {
                match classify_probe(outcome) {
                    ProbeVerdict::Pass => {},
                    _ => {
                        let statement = warning_message(route);
                        let notice = self.announce(PrintCommand::Issue, statement.as_str());
                        push_effect(&mut effects, notice);
                    },
                }
            },
            ProbeOutcome::TransportFailure(reason) => {
                push_effect(&mut effects, Effect::KillServer);
                let statement = failure_message(reason.as_str());
                let notice = self.announce(PrintCommand::Issue, statement.as_str());
                push_effect(&mut effects, notice);
            },
        }
        assert(effects.deep_view() =~= crate::model::probe_reaction(self@, route@, outcome@));
        effects
    }

    fn build_finished(&mut self, sheet: &FactSheet, success: bool, stderr: String) -> (step: Step)
        requires
            old(self)@.pending is Stopped,
            old(self)@.bug_count <= MAX_BUGS,
            old(self)@.attributes.state == AgentState::UnitTesting,
        ensures
            (Outcome { agent: final(self)@, sheet: sheet@, step: step@ })
                == crate::model::build_finished(
                old(self)@.awaiting(PendingView::Build),
                sheet@,
                success,
                stderr@,
            ),
    {
        let mut effects = no_effects();
        if success {
            let notice = self.announce(PrintCommand::UnitTest, BUILD_SUCCESSFUL);
            push_effect(&mut effects, notice);
            self.bug_count = 0;
            self.pending = Pending::Source;
            assert(effects.deep_view() =~= seq![
                old(self)@.announces(PrintCommand::UnitTest, BUILD_SUCCESSFUL@),
            ]);
            Step { effects, next: Next::Ask(Query::ReadExecMain) }
        } else {
            self.bug_count = self.bug_count + 1;
            self.bug_errors = Some(stderr);
            if self.bug_count > MAX_BUGS {
                let notice = self.announce(PrintCommand::Issue, TOO_MANY_BUGS);
                push_effect(&mut effects, notice);
                assert(effects.deep_view() =~= seq![
                    old(self)@.announces(PrintCommand::Issue, TOO_MANY_BUGS@),
                ]);
                self.abort(effects, AgentError::RetryBudgetExhausted)
            } else {
                self.attributes.state = AgentState::Working;
                self.enter(sheet, effects)
            }
        }
    }

    fn template_read(&mut self, sheet: &FactSheet, template: String) -> (step: Step)
        requires
            old(self)@.pending is Stopped,
            old(self)@.awaiting(PendingView::Template).wf(),
        ensures
            (Outcome { agent: final(self)@, sheet: sheet@, step: step@ })
                == crate::model::template_read(old(self)@, sheet@, template@),
    {
        let context = write_initial_code_context(
            template.as_str(),
            sheet.project_description.as_str(),
        );
        let request = TaskRequest::new(Capability::PrintBackendWebserverCode, context.as_str());
        self.ask_model(sheet, no_effects(), request)
    }

    fn model_replied(&mut self, factsheet: &mut FactSheet, request: TaskRequest, text: String) -> (step:
        Step)
        requires
            old(self)@.pending is Stopped,
            old(self)@.awaiting(PendingView::Model(request@)).wf(),
        ensures
            (Outcome { agent: final(self)@, sheet: final(factsheet)@, step: step@ })
                == crate::model::model_replied(old(self)@, old(factsheet)@, request@, text@),
    {
        if request.capability.is_structured() {
            let schema = text.clone();
            self.pending = Pending::Decoding { schema };
            Step { effects: no_effects(), next: Next::Ask(Query::DecodeRoutes(text)) }
        } else {
            let mut effects = no_effects();
            push_effect(&mut effects, Effect::SaveBackendCode(text.clone()));
            factsheet.backend_code = Some(text);
            match self.attributes.state {
                AgentState::Discovery => {
                    self.attributes.state = AgentState::Working;
                },
                _ => {
                    self.attributes.state = AgentState::UnitTesting;
                },
            }
            assert(effects.deep_view() =~= seq![
                crate::protocol::EffectView::SaveBackendCode(text@),
            ]);
            self.enter(factsheet, effects)
        }
    }

    fn model_failed(&mut self, sheet: &FactSheet, request: TaskRequest) -> (step: Step)
        requires
            old(self)@.pending is Stopped,
            old(self)@.awaiting(PendingView::Model(request@)).wf(),
        ensures
            (Outcome { agent: final(self)@, sheet: sheet@, step: step@ })
                == crate::model::model_failed(old(self)@, sheet@, request@),
    {
        let mut request = request;
        match request.settle(None) {
            RequestVerdict::Resend => self.ask_model(sheet, no_effects(), request),
            _ => self.abort(no_effects(), AgentError::Transport),
        }
    }

    fn confirmed(&mut self, sheet: &FactSheet, safe: bool) -> (step: Step)
        requires
            old(self)@.pending is Stopped,
            old(self)@.awaiting(PendingView::Confirmation).wf(),
        ensures
            (Outcome { agent: final(self)@, sheet: sheet@, step: step@ })
                == crate::model::confirmed(old(self)@, sheet@, safe),
    {
        if safe {
            let mut effects = no_effects();
            let notice = self.announce(PrintCommand::UnitTest, BUILDING_PROJECT);
            push_effect(&mut effects, notice);
            self.pending = Pending::Build;
            assert(effects.deep_view() =~= seq![
                old(self)@.announces(PrintCommand::UnitTest, BUILDING_PROJECT@),
            ]);
            Step { effects, next: Next::Ask(Query::Build) }
        } else {
            self.abort(no_effects(), AgentError::OperatorRefused)
        }
    }

    fn source_read(&mut self, sheet: &FactSheet, source: String) -> (step: Step)
        requires
            old(self)@.pending is Stopped,
            old(self)@.awaiting(PendingView::Source).wf(),
        ensures
            (Outcome { agent: final(self)@, sheet: sheet@, step: step@ })
                == crate::model::source_read(old(self)@, sheet@, source@),
    {
        let context = write_endpoints_context(source.as_str());
        let request = TaskRequest::new(Capability::PrintRestApiEndpoints, context.as_str());
        self.ask_model(sheet, no_effects(), request)
    }

    fn routes_decoded(
        &mut self,
        factsheet: &mut FactSheet,
        schema: String,
        routes: Vec<RouteObject>,
    ) -> (step: Step)
        requires
            old(self)@.pending is Stopped,
            old(self)@.awaiting(PendingView::Decoding { schema: schema@ }).wf(),
        ensures
            (Outcome { agent: final(self)@, sheet: final(factsheet)@, step: step@ })
                == crate::model::routes_decoded(
                old(self)@,
                old(factsheet)@,
                schema@,
                routes.deep_view(),
            ),
    {
        let checkable = checkable_routes(&routes);
        let paths = paths_of(&checkable);
        factsheet.api_endpoint_schema = Some(checkable);
        let mut effects = no_effects();
        let notice = self.announce(PrintCommand::UnitTest, STARTING_SERVER);
        push_effect(&mut effects, notice);
        self.pending = Pending::Spawn { schema, routes: paths };
        assert(effects.deep_view() =~= seq![
            old(self)@.announces(PrintCommand::UnitTest, STARTING_SERVER@),
        ]);
        Step { effects, next: Next::Ask(Query::SpawnServer) }
    }

    fn server_spawned(&mut self, sheet: &FactSheet, schema: String, routes: Vec<String>) -> (step:
        Step)
        requires
            old(self)@.pending is Stopped,
            old(self)@.awaiting(
                PendingView::Spawn { schema: schema@, routes: routes.deep_view() },
            ).wf(),
        ensures
            (Outcome { agent: final(self)@, sheet: sheet@, step: step@ })
                == crate::model::server_spawned(old(self)@, sheet@, schema@, routes.deep_view()),
    {
        let mut effects = no_effects();
        let notice = self.announce(PrintCommand::UnitTest, LAUNCHING_TESTS);
        push_effect(&mut effects, notice);
        push_effect(&mut effects, Effect::WarmUp { seconds: WARM_UP_SECONDS });
        assert(effects.deep_view() =~= seq![
            old(self)@.announces(PrintCommand::UnitTest, LAUNCHING_TESTS@),
            crate::protocol::EffectView::WarmUp { seconds: WARM_UP_SECONDS },
        ]);
        self.probe(sheet, schema, routes, 0, effects)
    }

    fn probed(
        &mut self,
        sheet: &FactSheet,
        schema: String,
        routes: Vec<String>,
        index: usize,
        outcome: ProbeOutcome,
    ) -> (step: Step)
        requires
            old(self)@.pending is Stopped,
            old(self)@.awaiting(
                PendingView::Probe {
                    schema: schema@,
                    routes: routes.deep_view(),
                    index: index as nat,
                },
            ).wf(),
        ensures
            (Outcome { agent: final(self)@, sheet: sheet@, step: step@ }) == crate::model::probed(
                old(self)@,
                sheet@,
                schema@,
                routes.deep_view(),
                index as nat,
                outcome@,
            ),
    {
        let total: usize = routes.len();
        assert(index < total);
        let effects = self.react_to_probe(routes[index].as_str(), &outcome);
        self.probe(sheet, schema, routes, index + 1, effects)
    }

    /// Takes what happened outside the agent and answers with the next
    /// step. The agent, the fact sheet and the step are exactly what
    /// [`advance_model`] makes of the agent, the fact sheet and the event.
    ///
    /// An event that does not answer what the agent waits for is answered
    /// with [`AgentError::UnexpectedEvent`] and changes nothing.
    pub fn advance(&mut self, factsheet: &mut FactSheet, event: Event) -> (step: Step)
        ensures
            (Outcome { agent: final(self)@, sheet: final(factsheet)@, step: step@ })
                == advance_model(old(self)@, old(factsheet)@, event@),
            final(self)@.wf(),
            final(factsheet)@.api_endpoint_schema == old(factsheet)@.api_endpoint_schema
                || final(factsheet)@.schema_is_checkable(),
    {
        proof {
            use_type_invariant(&*self);
            crate::laws::law_schema_holds_checkable_routes(old(self)@, old(factsheet)@, event@);
            crate::laws::law_agent_stays_well_formed(old(self)@, old(factsheet)@, event@);
        }
        let mut pending = Pending::Stopped;
        core::mem::swap(&mut self.pending, &mut pending);
        match (pending, event) {
            (Pending::Nothing, Event::Start) => self.enter(factsheet, no_effects()),
            (Pending::Template, Event::TemplateRead(template)) => {
                self.template_read(factsheet, template)
            },
            (Pending::Model(request), Event::ModelReplied(text)) => {
                self.model_replied(factsheet, request, text)
            },
            (Pending::Model(request), Event::ModelFailed) => self.model_failed(factsheet, request),
            (Pending::Confirmation, Event::Confirmed(safe)) => self.confirmed(factsheet, safe),
            (Pending::Build, Event::BuildFinished { success, stderr }) => {
                self.build_finished(factsheet, success, stderr)
            },
            (Pending::Build, Event::ToolchainUnavailable) => {
                self.abort(no_effects(), AgentError::ToolchainUnavailable)
            },
            (Pending::Source, Event::SourceRead(source)) => self.source_read(factsheet, source),
            (Pending::Decoding { schema }, Event::RoutesDecoded(routes)) => {
                self.routes_decoded(factsheet, schema, routes)
            },
            (Pending::Decoding { schema }, Event::DecodeFailed) => {
                self.abort(no_effects(), AgentError::Decode)
            },
            (Pending::Spawn { schema, routes }, Event::ServerSpawned) => {
                self.server_spawned(factsheet, schema, routes)
            },
            (Pending::Spawn { schema, routes }, Event::ToolchainUnavailable) => {
                self.abort(no_effects(), AgentError::ToolchainUnavailable)
            },
            (Pending::Probe { schema, routes, index }, Event::Probed(outcome)) => {
                self.probed(factsheet, schema, routes, index, outcome)
            },
            (other, _) => {
                self.pending = other;
                Step { effects: no_effects(), next: Next::Abort(AgentError::UnexpectedEvent) }
            },
        }
    }
}

} // verus!
