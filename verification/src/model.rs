//! The backend developer as a state machine over mathematical values:
//! what the agent is, what it waits for, and how each event moves it on.

use vstd::prelude::*;
use crate::agent::{AgentState, BasicAgentView};
use crate::capability::Capability;
use crate::command_line::PrintCommand;
use crate::context::{endpoints_context, fix_code_context, improved_code_context, initial_code_context};
use crate::fact_sheet::{checkable_subset, FactSheetView, RouteObjectView};
use crate::protocol::{AgentError, EffectView, EventView, NextView, QueryView, StepView};
use crate::request::TaskRequestView;
use crate::validator::{
    failure_statement, probe_address, testing_statement, warning_statement, ProbeOutcomeView,
    ProbeVerdict, PROBE_TIMEOUT_SECONDS, WARM_UP_SECONDS,
};

verus! {

pub const OBJECTIVE: &'static str = "Develops backend code for webserver and json database";

pub const POSITION: &'static str = "Backend Developer";

/// How many failed builds in a row the repair loop takes up again.
pub const MAX_BUGS: u8 = 2;

pub const REQUESTING_INPUT: &'static str = "Backend Code Unit testing: Requesting user input";

pub const BUILDING_PROJECT: &'static str = "Backend Code Unit Testing: Building Project...";

pub const BUILD_SUCCESSFUL: &'static str =
    "Backend Code Unit Testing: Test server build successful...";

pub const TOO_MANY_BUGS: &'static str = "Backend Code Unit Testing: Too many bugs found in code";

pub const STARTING_SERVER: &'static str = "Backend Code Unit Testing: Starting web server...";

pub const LAUNCHING_TESTS: &'static str =
    "Backend Code Unit Testing: Launching tests on server in 5 seconds...";

pub const TESTING_COMPLETE: &'static str = "Backend testing complete...";

/// What the agent waits for.
pub enum PendingView {
    /// No query is open: the agent waits to be started.
    Nothing,
    /// The text of the code template.
    Template,
    /// The generative backend's answer to this request.
    Model(TaskRequestView),
    /// The operator's answer to the safety question.
    Confirmation,
    /// The end of the build.
    Build,
    /// The text of the source that was built.
    Source,
    /// The routes decoded from the backend's answer, `schema`.
    Decoding { schema: Seq<char> },
    /// The start of the server whose `routes` will be probed.
    Spawn { schema: Seq<char>, routes: Seq<Seq<char>> },
    /// The outcome of the probe of the route at `index`.
    Probe { schema: Seq<char>, routes: Seq<Seq<char>>, index: nat },
    /// Nothing any more: the run was aborted.
    Stopped,
}

/// Mathematical content of the backend developer.
pub struct AgentView {
    pub attributes: BasicAgentView,
    /// What the last failed build reported.
    pub bug_errors: Option<Seq<char>>,
    /// How many builds failed since the last one that succeeded.
    pub bug_count: nat,
    pub pending: PendingView,
}

/// What one event makes of the agent and the fact sheet, and the step
/// that the agent answers with.
pub struct Outcome {
    pub agent: AgentView,
    pub sheet: FactSheetView,
    pub step: StepView,
}

impl AgentView {
    /// The agent as it is created: in discovery, without bugs, waiting to
    /// be started.
    pub open spec fn fresh() -> AgentView {
        AgentView {
            attributes: BasicAgentView {
                objective: OBJECTIVE@,
                position: POSITION@,
                state: AgentState::Discovery,
                memory: Seq::empty(),
            },
            bug_errors: None,
            bug_count: 0,
            pending: PendingView::Nothing,
        }
    }

    /// The states in which the agent can wait for what it waits for.
    pub open spec fn pending_fits_state(self) -> bool {
        let state = self.attributes.state;
        match self.pending {
            PendingView::Nothing => true,
            PendingView::Stopped => true,
            PendingView::Template => state == AgentState::Discovery,
            PendingView::Model(request) => if request.capability.answers_in_json() {
                state == AgentState::UnitTesting
            } else {
                state == AgentState::Discovery || state == AgentState::Working
            },
            _ => state == AgentState::UnitTesting,
        }
    }

    /// What holds of every agent: the bug count stays within the repair
    /// loop's bound while the run goes on and exceeds it by one at most,
    /// a request is at its first or second attempt, a probe is that of a
    /// route of the list, and the agent waits for something that belongs
    /// to its state.
    pub open spec fn wf(self) -> bool {
        &&& self.bug_count <= MAX_BUGS + 1
        &&& (!(self.pending is Stopped) ==> self.bug_count <= MAX_BUGS)
        &&& (self.pending matches PendingView::Model(request) ==> 1 <= request.attempts
            <= crate::request::MAX_ATTEMPTS)
        &&& (self.pending matches PendingView::Probe { routes, index, .. } ==> index
            < routes.len())
        &&& self.pending_fits_state()
    }

    /// The agent in another state.
    pub open spec fn in_state(self, state: AgentState) -> AgentView {
        AgentView {
            attributes: BasicAgentView {
                objective: self.attributes.objective,
                position: self.attributes.position,
                state,
                memory: self.attributes.memory,
            },
            bug_errors: self.bug_errors,
            bug_count: self.bug_count,
            pending: self.pending,
        }
    }

    /// The agent waiting for something else.
    pub open spec fn awaiting(self, pending: PendingView) -> AgentView {
        AgentView {
            attributes: self.attributes,
            bug_errors: self.bug_errors,
            bug_count: self.bug_count,
            pending,
        }
    }

    /// The agent after a build that succeeded.
    pub open spec fn without_bugs(self) -> AgentView {
        AgentView {
            attributes: self.attributes,
            bug_errors: self.bug_errors,
            bug_count: 0,
            pending: self.pending,
        }
    }

    /// The agent after one more build that failed with this report.
    pub open spec fn with_bug(self, report: Seq<char>) -> AgentView {
        AgentView {
            attributes: self.attributes,
            bug_errors: Some(report),
            bug_count: self.bug_count + 1,
            pending: self.pending,
        }
    }

    /// A status line of the agent.
    pub open spec fn announces(self, kind: PrintCommand, statement: Seq<char>) -> EffectView {
        EffectView::Announce { kind, position: self.attributes.position, statement }
    }

    /// The request for a rewrite of the current code: an improvement where
    /// no build has failed since the last success, a repair otherwise.
    pub open spec fn rewrite_request(self, sheet: FactSheetView) -> TaskRequestView {
        if self.bug_count == 0 {
            TaskRequestView::first(
                Capability::PrintImprovedWebserverCode,
                improved_code_context(sheet),
            )
        } else {
            TaskRequestView::first(
                Capability::PrintFixedCode,
                fix_code_context(sheet, self.bug_errors),
            )
        }
    }
}

impl FactSheetView {
    /// The fact sheet with new backend code.
    pub open spec fn with_code(self, code: Seq<char>) -> FactSheetView {
        FactSheetView {
            project_description: self.project_description,
            project_scope: self.project_scope,
            external_urls: self.external_urls,
            backend_code: Some(code),
            api_endpoint_schema: self.api_endpoint_schema,
        }
    }

    /// The fact sheet with a new schema.
    pub open spec fn with_schema(self, routes: Seq<RouteObjectView>) -> FactSheetView {
        FactSheetView {
            project_description: self.project_description,
            project_scope: self.project_scope,
            external_urls: self.external_urls,
            backend_code: self.backend_code,
            api_endpoint_schema: Some(routes),
        }
    }
}

/// The paths of the routes, in their order.
pub open spec fn route_paths(routes: Seq<RouteObjectView>) -> Seq<Seq<char>> {
    routes.map_values(|route: RouteObjectView| route.route)
}

/// An event that does not answer what the agent waits for is refused:
/// nothing changes and nothing is to be done.
pub open spec fn refused(agent: AgentView, sheet: FactSheetView) -> Outcome {
    Outcome {
        agent,
        sheet,
        step: StepView {
            effects: Seq::empty(),
            next: NextView::Abort(AgentError::UnexpectedEvent),
        },
    }
}

/// The run is aborted: after the effects nothing follows, and the agent
/// waits for nothing any more.
pub open spec fn aborted(
    agent: AgentView,
    sheet: FactSheetView,
    effects: Seq<EffectView>,
    error: AgentError,
) -> Outcome {
    Outcome {
        agent: agent.awaiting(PendingView::Stopped),
        sheet,
        step: StepView { effects, next: NextView::Abort(error) },
    }
}

/// The agent sends a request to the generative backend: it announces the
/// call, asks for the request's message to be sent and waits for the answer.
pub open spec fn asked_model(
    agent: AgentView,
    sheet: FactSheetView,
    effects: Seq<EffectView>,
    request: TaskRequestView,
) -> Outcome {
    Outcome {
        agent: agent.awaiting(PendingView::Model(request)),
        sheet,
        step: StepView {
            effects: effects.push(
                agent.announces(PrintCommand::AICall, request.capability.name_text()),
            ),
            next: NextView::Ask(QueryView::CallModel(request.message)),
        },
    }
}

/// The agent takes up the work of the state it is in.
///
/// In discovery it asks for the code template. When working it asks the
/// backend for a rewrite of the current code. When unit testing it asks
/// the operator whether the code may run. When finished it does nothing.
pub open spec fn entered(agent: AgentView, sheet: FactSheetView, effects: Seq<EffectView>) -> Outcome {
    match agent.attributes.state {
        AgentState::Discovery => Outcome {
            agent: agent.awaiting(PendingView::Template),
            sheet,
            step: StepView { effects, next: NextView::Ask(QueryView::ReadCodeTemplate) },
        },
        AgentState::Working => asked_model(agent, sheet, effects, agent.rewrite_request(sheet)),
        AgentState::UnitTesting => Outcome {
            agent: agent.awaiting(PendingView::Confirmation),
            sheet,
            step: StepView {
                effects: effects.push(
                    agent.announces(PrintCommand::UnitTest, REQUESTING_INPUT@),
                ),
                next: NextView::Ask(QueryView::ConfirmSafeCode),
            },
        },
        AgentState::Finished => Outcome {
            agent: agent.awaiting(PendingView::Nothing),
            sheet,
            step: StepView { effects, next: NextView::Finished },
        },
    }
}

/// The backend answered a request.
///
/// A list of routes goes on to be decoded. Code is saved and stored in
/// the fact sheet, and the agent moves on: from discovery to working,
/// from working to unit testing.
pub open spec fn model_replied(
    agent: AgentView,
    sheet: FactSheetView,
    request: TaskRequestView,
    text: Seq<char>,
) -> Outcome {
    if request.capability.answers_in_json() {
        Outcome {
            agent: agent.awaiting(PendingView::Decoding { schema: text }),
            sheet,
            step: StepView {
                effects: Seq::empty(),
                next: NextView::Ask(QueryView::DecodeRoutes(text)),
            },
        }
    } else {
        let state = if agent.attributes.state == AgentState::Discovery {
            AgentState::Working
        } else {
            AgentState::UnitTesting
        };
        entered(agent.in_state(state), sheet.with_code(text), seq![EffectView::SaveBackendCode(text)])
    }
}

/// One attempt to reach the backend failed: the same message is sent
/// once more, or the run is aborted where that was the second attempt.
pub open spec fn model_failed(agent: AgentView, sheet: FactSheetView, request: TaskRequestView) -> Outcome {
    if request.verdict(None) is Resend {
        asked_model(agent, sheet, Seq::empty(), request.settled(None))
    } else {
        aborted(agent, sheet, Seq::empty(), AgentError::Transport)
    }
}

/// The build ended.
///
/// After a success the bug count is 0 and the source is read back. After
/// a failure the bug count is one higher and the report is kept; the run
/// is aborted where the count exceeds the bound, and goes back to
/// working otherwise.
pub open spec fn build_finished(
    agent: AgentView,
    sheet: FactSheetView,
    success: bool,
    stderr: Seq<char>,
) -> Outcome {
    if success {
        Outcome {
            agent: agent.without_bugs().awaiting(PendingView::Source),
            sheet,
            step: StepView {
                effects: seq![agent.announces(PrintCommand::UnitTest, BUILD_SUCCESSFUL@)],
                next: NextView::Ask(QueryView::ReadExecMain),
            },
        }
    } else if agent.bug_count + 1 > MAX_BUGS {
        aborted(
            agent.with_bug(stderr),
            sheet,
            seq![agent.announces(PrintCommand::Issue, TOO_MANY_BUGS@)],
            AgentError::RetryBudgetExhausted,
        )
    } else {
        entered(agent.with_bug(stderr).in_state(AgentState::Working), sheet, Seq::empty())
    }
}

/// The validation is over: the backend's list of routes is saved as it
/// was written, the server is shut down and the agent is finished.
pub open spec fn finished_testing(
    agent: AgentView,
    sheet: FactSheetView,
    schema: Seq<char>,
    effects: Seq<EffectView>,
) -> Outcome {
    Outcome {
        agent: agent.in_state(AgentState::Finished).awaiting(PendingView::Nothing),
        sheet,
        step: StepView {
            effects: effects.push(EffectView::SaveApiEndpoints(schema)).push(
                agent.announces(PrintCommand::UnitTest, TESTING_COMPLETE@),
            ).push(EffectView::KillServer),
            next: NextView::Finished,
        },
    }
}

/// The validator goes on with the route at `index`: it announces and
/// asks for its probe, or ends the validation where no route is left.
pub open spec fn probing(
    agent: AgentView,
    sheet: FactSheetView,
    schema: Seq<char>,
    routes: Seq<Seq<char>>,
    index: nat,
    effects: Seq<EffectView>,
) -> Outcome {
    if index < routes.len() {
        Outcome {
            agent: agent.awaiting(PendingView::Probe { schema, routes, index }),
            sheet,
            step: StepView {
                effects: effects.push(
                    agent.announces(PrintCommand::UnitTest, testing_statement(routes[index as int])),
                ),
                next: NextView::Ask(
                    QueryView::Probe {
                        url: probe_address(routes[index as int]),
                        timeout_seconds: PROBE_TIMEOUT_SECONDS,
                    },
                ),
            },
        }
    } else {
        finished_testing(agent, sheet, schema, effects)
    }
}

/// What the outcome of one probe calls for: nothing after status 200, a
/// warning after another status, and after a failure of the transport
/// the death of the server, once, and a line that says why.
pub open spec fn probe_reaction(agent: AgentView, route: Seq<char>, outcome: ProbeOutcomeView) -> Seq<
    EffectView,
> {
    match outcome {
        ProbeOutcomeView::Status(_) => if outcome.verdict() == ProbeVerdict::Pass {
            Seq::empty()
        } else {
            seq![agent.announces(PrintCommand::Issue, warning_statement(route))]
        },
        ProbeOutcomeView::TransportFailure(reason) => seq![
            EffectView::KillServer,
            agent.announces(PrintCommand::Issue, failure_statement(reason)),
        ],
    }
}

/// The backend's list of routes was decoded: the routes that can be
/// probed are stored in the fact sheet, in place of what was there, and
/// the server is started.
pub open spec fn routes_decoded(
    agent: AgentView,
    sheet: FactSheetView,
    schema: Seq<char>,
    routes: Seq<RouteObjectView>,
) -> Outcome {
    let checkable = checkable_subset(routes);
    Outcome {
        agent: agent.awaiting(PendingView::Spawn { schema, routes: route_paths(checkable) }),
        sheet: sheet.with_schema(checkable),
        step: StepView {
            effects: seq![agent.announces(PrintCommand::UnitTest, STARTING_SERVER@)],
            next: NextView::Ask(QueryView::SpawnServer),
        },
    }
}

/// The code template was read: the agent asks the backend for the first
/// version of the code, from the template and the project's description.
pub open spec fn template_read(agent: AgentView, sheet: FactSheetView, template: Seq<char>) -> Outcome {
    asked_model(
        agent,
        sheet,
        Seq::empty(),
        TaskRequestView::first(
            Capability::PrintBackendWebserverCode,
            initial_code_context(template, sheet.project_description),
        ),
    )
}

/// The operator answered the safety question: the project is built after
/// consent, and the run is aborted after a refusal.
pub open spec fn confirmed(agent: AgentView, sheet: FactSheetView, safe: bool) -> Outcome {
    if safe {
        Outcome {
            agent: agent.awaiting(PendingView::Build),
            sheet,
            step: StepView {
                effects: seq![agent.announces(PrintCommand::UnitTest, BUILDING_PROJECT@)],
                next: NextView::Ask(QueryView::Build),
            },
        }
    } else {
        aborted(agent, sheet, Seq::empty(), AgentError::OperatorRefused)
    }
}

/// The source that was built was read back: the agent asks the backend
/// for the list of its routes.
pub open spec fn source_read(agent: AgentView, sheet: FactSheetView, source: Seq<char>) -> Outcome {
    asked_model(
        agent,
        sheet,
        Seq::empty(),
        TaskRequestView::first(Capability::PrintRestApiEndpoints, endpoints_context(source)),
    )
}

/// The server was started: it is given time to come up, and then the
/// validator begins with the first route.
pub open spec fn server_spawned(
    agent: AgentView,
    sheet: FactSheetView,
    schema: Seq<char>,
    routes: Seq<Seq<char>>,
) -> Outcome {
    probing(
        agent,
        sheet,
        schema,
        routes,
        0,
        seq![
            agent.announces(PrintCommand::UnitTest, LAUNCHING_TESTS@),
            EffectView::WarmUp { seconds: WARM_UP_SECONDS },
        ],
    )
}

/// The route at `index` was probed: the validator does what the outcome
/// calls for and goes on with the next route, whatever the outcome was.
pub open spec fn probed(
    agent: AgentView,
    sheet: FactSheetView,
    schema: Seq<char>,
    routes: Seq<Seq<char>>,
    index: nat,
    outcome: ProbeOutcomeView,
) -> Outcome {
    if index < routes.len() {
        probing(
            agent,
            sheet,
            schema,
            routes,
            index + 1,
            probe_reaction(agent, routes[index as int], outcome),
        )
    } else {
        finished_testing(agent, sheet, schema, Seq::empty())
    }
}

/// What the agent makes of one event.
///
/// Each event answers one query. An event that does not answer what the
/// agent waits for is refused and changes nothing.
pub open spec fn advance_model(agent: AgentView, sheet: FactSheetView, event: EventView) -> Outcome {
    match agent.pending {
        PendingView::Nothing => match event {
            EventView::Start => entered(agent, sheet, Seq::empty()),
            _ => refused(agent, sheet),
        },
        PendingView::Template => match event {
            EventView::TemplateRead(template) => template_read(agent, sheet, template),
            _ => refused(agent, sheet),
        },
        PendingView::Model(request) => match event {
            EventView::ModelReplied(text) => model_replied(agent, sheet, request, text),
            EventView::ModelFailed => model_failed(agent, sheet, request),
            _ => refused(agent, sheet),
        },
        PendingView::Confirmation => match event {
            EventView::Confirmed(safe) => confirmed(agent, sheet, safe),
            _ => refused(agent, sheet),
        },
        PendingView::Build => match event {
            EventView::BuildFinished { success, stderr } => build_finished(
                agent,
                sheet,
                success,
                stderr,
            ),
            EventView::ToolchainUnavailable => aborted(
                agent,
                sheet,
                Seq::empty(),
                AgentError::ToolchainUnavailable,
            ),
            _ => refused(agent, sheet),
        },
        PendingView::Source => match event {
            EventView::SourceRead(source) => source_read(agent, sheet, source),
            _ => refused(agent, sheet),
        },
        PendingView::Decoding { schema } => match event {
            EventView::RoutesDecoded(routes) => routes_decoded(agent, sheet, schema, routes),
            EventView::DecodeFailed => aborted(agent, sheet, Seq::empty(), AgentError::Decode),
            _ => refused(agent, sheet),
        },
        PendingView::Spawn { schema, routes } => match event {
            EventView::ServerSpawned => server_spawned(agent, sheet, schema, routes),
            EventView::ToolchainUnavailable => aborted(
                agent,
                sheet,
                Seq::empty(),
                AgentError::ToolchainUnavailable,
            ),
            _ => refused(agent, sheet),
        },
        PendingView::Probe { schema, routes, index } => match event {
            EventView::Probed(outcome) => probed(agent, sheet, schema, routes, index, outcome),
            _ => refused(agent, sheet),
        },
        PendingView::Stopped => refused(agent, sheet),
    }
}

} // verus!
