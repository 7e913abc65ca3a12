//! What passes between the agent and whoever drives it. The agent answers
//! every event with a step: effects to carry out in order, and then either
//! a query whose answer is the next event, the end of the run, or an abort.

use vstd::prelude::*;
use crate::command_line::PrintCommand;
use crate::fact_sheet::{RouteObject, RouteObjectView};
use crate::message::{Message, MessageView};
use crate::validator::{ProbeOutcome, ProbeOutcomeView};

verus! {

/// Why a run was aborted.
#[derive(Debug, Clone, Copy, PartialEq, Eq, Structural)]
pub enum AgentError {
    /// The generative backend could not be reached, twice in a row.
    Transport,
    /// The backend's structured answer could not be decoded.
    Decode,
    /// The build or the server could not even be launched.
    ToolchainUnavailable,
    /// The build failed more often than the repair loop allows.
    RetryBudgetExhausted,
    /// The operator refused to run generated code.
    OperatorRefused,
    /// The event does not answer what the agent asked for. Nothing changed.
    UnexpectedEvent,
}

/// What happened outside the agent.
#[derive(Debug, Clone, PartialEq)]
pub enum Event {
    /// The run begins, or is taken up where the agent's state says.
    Start,
    /// The code template was read; this is its text.
    TemplateRead(String),
    /// The generative backend answered with this text.
    ModelReplied(String),
    /// One attempt to reach the generative backend failed.
    ModelFailed,
    /// The operator answered the safety question.
    Confirmed(bool),
    /// The build ran to its end, well or not; `stderr` is what it reported.
    BuildFinished { success: bool, stderr: String },
    /// The build or the server could not be launched.
    ToolchainUnavailable,
    /// The source that was built was read back; this is its text.
    SourceRead(String),
    /// The backend's list of routes was decoded.
    RoutesDecoded(Vec<RouteObject>),
    /// The backend's list of routes could not be decoded.
    DecodeFailed,
    /// The server process was started.
    ServerSpawned,
    /// One route was probed.
    Probed(ProbeOutcome),
}

/// Mathematical content of an [`Event`].
pub enum EventView {
    Start,
    TemplateRead(Seq<char>),
    ModelReplied(Seq<char>),
    ModelFailed,
    Confirmed(bool),
    BuildFinished { success: bool, stderr: Seq<char> },
    ToolchainUnavailable,
    SourceRead(Seq<char>),
    RoutesDecoded(Seq<RouteObjectView>),
    DecodeFailed,
    ServerSpawned,
    Probed(ProbeOutcomeView),
}

impl View for Event {
    type V = EventView;

    open spec fn view(&self) -> EventView {
        match self {
            Event::Start => EventView::Start,
            Event::TemplateRead(text) => EventView::TemplateRead(text@),
            Event::ModelReplied(text) => EventView::ModelReplied(text@),
            Event::ModelFailed => EventView::ModelFailed,
            Event::Confirmed(safe) => EventView::Confirmed(*safe),
            Event::BuildFinished { success, stderr } => EventView::BuildFinished {
                success: *success,
                stderr: stderr@,
            },
            Event::ToolchainUnavailable => EventView::ToolchainUnavailable,
            Event::SourceRead(text) => EventView::SourceRead(text@),
            Event::RoutesDecoded(routes) => EventView::RoutesDecoded(routes.deep_view()),
            Event::DecodeFailed => EventView::DecodeFailed,
            Event::ServerSpawned => EventView::ServerSpawned,
            Event::Probed(outcome) => EventView::Probed(outcome@),
        }
    }
}

/// Work that the driver carries out without reporting back.
#[derive(Debug, Clone, PartialEq)]
pub enum Effect {
    /// Print a status line of the given kind for the agent in `position`.
    Announce { kind: PrintCommand, position: String, statement: String },
    /// Overwrite the server's main source file with this code.
    SaveBackendCode(String),
    /// Overwrite the schema file with this text, as the backend wrote it.
    SaveApiEndpoints(String),
    /// Wait for the server to come up.
    WarmUp { seconds: u64 },
    /// Kill the server process.
    KillServer,
}

/// Mathematical content of an [`Effect`].
pub enum EffectView {
    Announce { kind: PrintCommand, position: Seq<char>, statement: Seq<char> },
    SaveBackendCode(Seq<char>),
    SaveApiEndpoints(Seq<char>),
    WarmUp { seconds: u64 },
    KillServer,
}

impl View for Effect {
    type V = EffectView;

    open spec fn view(&self) -> EffectView {
        match self {
            Effect::Announce { kind, position, statement } => EffectView::Announce {
                kind: *kind,
                position: position@,
                statement: statement@,
            },
            Effect::SaveBackendCode(code) => EffectView::SaveBackendCode(code@),
            Effect::SaveApiEndpoints(schema) => EffectView::SaveApiEndpoints(schema@),
            Effect::WarmUp { seconds } => EffectView::WarmUp { seconds: *seconds },
            Effect::KillServer => EffectView::KillServer,
        }
    }
}

impl DeepView for Effect {
    type V = EffectView;

    open spec fn deep_view(&self) -> EffectView {
        self@
    }
}

/// Work whose result the agent waits for.
#[derive(Debug, Clone, PartialEq)]
pub enum Query {
    /// Read the code template. Answered by [`Event::TemplateRead`].
    ReadCodeTemplate,
    /// Send this message to the generative backend, once. Answered by
    /// [`Event::ModelReplied`] or [`Event::ModelFailed`].
    CallModel(Message),
    /// Ask the operator whether generated code may run. Answered by
    /// [`Event::Confirmed`].
    ConfirmSafeCode,
    /// Build the project. Answered by [`Event::BuildFinished`] or
    /// [`Event::ToolchainUnavailable`].
    Build,
    /// Read back the source that was built. Answered by
    /// [`Event::SourceRead`].
    ReadExecMain,
    /// Decode this text as a list of routes. Answered by
    /// [`Event::RoutesDecoded`] or [`Event::DecodeFailed`].
    DecodeRoutes(String),
    /// Start the server. Answered by [`Event::ServerSpawned`] or
    /// [`Event::ToolchainUnavailable`].
    SpawnServer,
    /// Send one GET request to `url`. Answered by [`Event::Probed`].
    Probe { url: String, timeout_seconds: u64 },
}

/// Mathematical content of a [`Query`].
pub enum QueryView {
    ReadCodeTemplate,
    CallModel(MessageView),
    ConfirmSafeCode,
    Build,
    ReadExecMain,
    DecodeRoutes(Seq<char>),
    SpawnServer,
    Probe { url: Seq<char>, timeout_seconds: u64 },
}

impl View for Query {
    type V = QueryView;

    open spec fn view(&self) -> QueryView {
        match self {
            Query::ReadCodeTemplate => QueryView::ReadCodeTemplate,
            Query::CallModel(message) => QueryView::CallModel(message@),
            Query::ConfirmSafeCode => QueryView::ConfirmSafeCode,
            Query::Build => QueryView::Build,
            Query::ReadExecMain => QueryView::ReadExecMain,
            Query::DecodeRoutes(text) => QueryView::DecodeRoutes(text@),
            Query::SpawnServer => QueryView::SpawnServer,
            Query::Probe { url, timeout_seconds } => QueryView::Probe {
                url: url@,
                timeout_seconds: *timeout_seconds,
            },
        }
    }
}

/// How a step ends.
#[derive(Debug, Clone, PartialEq)]
pub enum Next {
    /// The agent waits for the answer to this query.
    Ask(Query),
    /// The agent is finished; nothing is left to do.
    Finished,
    /// The run is over for this reason.
    Abort(AgentError),
}

/// Mathematical content of a [`Next`].
pub enum NextView {
    Ask(QueryView),
    Finished,
    Abort(AgentError),
}

impl View for Next {
    type V = NextView;

    open spec fn view(&self) -> NextView {
        match self {
            Next::Ask(query) => NextView::Ask(query@),
            Next::Finished => NextView::Finished,
            Next::Abort(error) => NextView::Abort(*error),
        }
    }
}

/// The agent's answer to one event.
#[derive(Debug, Clone, PartialEq)]
pub struct Step {
    /// What the driver carries out first, in this order.
    pub effects: Vec<Effect>,
    /// What the driver does after that.
    pub next: Next,
}

/// Mathematical content of a [`Step`].
pub struct StepView {
    pub effects: Seq<EffectView>,
    pub next: NextView,
}

impl View for Step {
    type V = StepView;

    open spec fn view(&self) -> StepView {
        StepView { effects: self.effects.deep_view(), next: self.next@ }
    }
}

/// How many of the effects kill the server.
pub open spec fn kill_count(effects: Seq<EffectView>) -> nat
    decreases effects.len(),
{
    if effects.len() == 0 {
        0
    } else {
        kill_count(effects.drop_last()) + if effects.last() is KillServer {
            1nat
        } else {
            0nat
        }
    }
}

} // verus!
