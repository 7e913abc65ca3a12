//! What holds of the agent whatever happens outside it.

use vstd::prelude::*;
use crate::agent::AgentState;
use crate::capability::Capability;
use crate::command_line::PrintCommand;
use crate::context::{fix_code_context, lemma_fix_context_holds_errors};
use crate::prompt::{
    instruction_text, INSTRUCTION_CLOSING, INSTRUCTION_OPENING, INSTRUCTION_RULES,
};
use crate::text::{contains_text, lemma_contains_wrapped};
use crate::fact_sheet::{checkable_subset, FactSheetView, RouteObjectView};
use crate::model::{
    advance_model, probe_reaction, AgentView, Outcome, PendingView, MAX_BUGS,
};
use crate::protocol::{kill_count, AgentError, EffectView, EventView, NextView, QueryView};
use crate::request::{TaskRequestView, MAX_ATTEMPTS};
use crate::validator::{failure_statement, probe_address, ProbeOutcomeView, STATUS_OK};

verus! {

/// Every route of a filtered schema can be probed.
pub proof fn law_filtered_routes_are_checkable(routes: Seq<RouteObjectView>)
    ensures
        forall|k: int|
            0 <= k < checkable_subset(routes).len() ==> (#[trigger] checkable_subset(
                routes,
            )[k]).is_checkable(),
        checkable_subset(routes).len() <= routes.len(),
{
    let pred = |route: RouteObjectView| route.is_checkable();
    routes.lemma_filter_len(pred);
    assert forall|k: int| 0 <= k < checkable_subset(routes).len() implies (
    #[trigger] checkable_subset(routes)[k]).is_checkable() by {
        routes.lemma_filter_pred(pred, k);
    }
}

/// The agent writes the schema of the fact sheet only with routes that
/// can be probed: after any event the schema is the one that was there,
/// or it holds nothing but GET routes without parameters. So a schema
/// that held only such routes holds only such routes ever after.
pub proof fn law_schema_holds_checkable_routes(
    agent: AgentView,
    sheet: FactSheetView,
    event: EventView,
)
    ensures
        advance_model(agent, sheet, event).sheet.api_endpoint_schema == sheet.api_endpoint_schema
            || advance_model(agent, sheet, event).sheet.schema_is_checkable(),
        sheet.schema_is_checkable() ==> advance_model(
            agent,
            sheet,
            event,
        ).sheet.schema_is_checkable(),
        agent.pending is Decoding ==> (event matches EventView::RoutesDecoded(routes)
            ==> advance_model(agent, sheet, event).sheet.api_endpoint_schema == Some(
            checkable_subset(routes),
        )),
{
    if let EventView::RoutesDecoded(routes) = event {
        law_filtered_routes_are_checkable(routes);
    }
}

/// A failed build counts: the bug count grows by exactly one and the
/// build's report is kept. The run is aborted exactly when the new count
/// exceeds the bound; otherwise the agent goes back to working and asks
/// for a repair of the code.
pub proof fn law_failed_build_counts_one_bug(
    agent: AgentView,
    sheet: FactSheetView,
    stderr: Seq<char>,
)
    requires
        agent.wf(),
        agent.pending is Build,
    ensures
        ({
            let after = advance_model(
                agent,
                sheet,
                EventView::BuildFinished { success: false, stderr },
            );
            &&& after.agent.bug_count == agent.bug_count + 1
            &&& after.agent.bug_errors == Some(stderr)
            &&& after.sheet == sheet
            &&& (agent.bug_count + 1 > MAX_BUGS <==> after.step.next == NextView::Abort(
                AgentError::RetryBudgetExhausted,
            ))
            &&& (agent.bug_count + 1 > MAX_BUGS ==> after.agent.pending is Stopped
                && after.agent.attributes.state == AgentState::UnitTesting)
            &&& (agent.bug_count + 1 <= MAX_BUGS ==> {
                let request = TaskRequestView::first(
                    Capability::PrintFixedCode,
                    fix_code_context(sheet, Some(stderr)),
                );
                &&& after.agent.attributes.state == AgentState::Working
                &&& after.agent.pending == PendingView::Model(request)
                &&& after.step.next == NextView::Ask(QueryView::CallModel(request.message))
            })
        }),
{
}

/// The request for a repair shows the backend what the build reported:
/// the report of the failed build is found again, as it was captured, in
/// the message that the agent asks to be sent.
pub proof fn law_repair_request_holds_report(
    agent: AgentView,
    sheet: FactSheetView,
    stderr: Seq<char>,
)
    requires
        agent.wf(),
        agent.pending is Build,
        agent.bug_count + 1 <= MAX_BUGS,
    ensures
        advance_model(
            agent,
            sheet,
            EventView::BuildFinished { success: false, stderr },
        ).step.next matches NextView::Ask(QueryView::CallModel(message)) && contains_text(
            message.content,
            stderr,
        ),
{
    law_failed_build_counts_one_bug(agent, sheet, stderr);
    let context = fix_code_context(sheet, Some(stderr));
    let signature = Capability::PrintFixedCode.signature_text();
    lemma_fix_context_holds_errors(sheet, stderr);
    lemma_contains_wrapped(
        INSTRUCTION_OPENING@ + signature + INSTRUCTION_RULES@,
        context,
        INSTRUCTION_CLOSING@,
        stderr,
    );
    assert(instruction_text(signature, context) == INSTRUCTION_OPENING@ + signature
        + INSTRUCTION_RULES@ + context + INSTRUCTION_CLOSING@);
}

/// One turn of the repair loop: a failed build, the repaired code, and
/// the operator's consent. It leads from one build to the next.
pub open spec fn repair_cycle(
    agent: AgentView,
    sheet: FactSheetView,
    stderr: Seq<char>,
    code: Seq<char>,
) -> Outcome {
    let failed = advance_model(agent, sheet, EventView::BuildFinished { success: false, stderr });
    let repaired = advance_model(failed.agent, failed.sheet, EventView::ModelReplied(code));
    advance_model(repaired.agent, repaired.sheet, EventView::Confirmed(true))
}

/// Every turn of the repair loop that is not aborted ends at the next
/// build with a bug count that is higher by exactly one, with the report
/// of the failed build kept and the repaired code in the fact sheet.
pub proof fn law_repair_cycle_adds_one_bug(
    agent: AgentView,
    sheet: FactSheetView,
    stderr: Seq<char>,
    code: Seq<char>,
)
    requires
        agent.wf(),
        agent.pending is Build,
        agent.bug_count + 1 <= MAX_BUGS,
    ensures
        ({
            let after = repair_cycle(agent, sheet, stderr, code);
            &&& after.agent.wf()
            &&& after.agent.pending is Build
            &&& after.agent.attributes.state == AgentState::UnitTesting
            &&& after.agent.bug_count == agent.bug_count + 1
            &&& after.agent.bug_errors == Some(stderr)
            &&& after.sheet == sheet.with_code(code)
            &&& after.step.next == NextView::Ask(QueryView::Build)
        }),
{
}

/// Three failed builds in a row end the run: from a build without bugs,
/// two turns of the repair loop and one more failure abort the run with
/// an exhausted retry budget, and the agent keeps the report of the
/// third failure. The first two failures do not abort it.
pub proof fn law_third_failure_in_a_row_aborts(
    agent: AgentView,
    sheet: FactSheetView,
    first: Seq<char>,
    second: Seq<char>,
    third: Seq<char>,
    first_repair: Seq<char>,
    second_repair: Seq<char>,
)
    requires
        agent.wf(),
        agent.pending is Build,
        agent.bug_count == 0,
    ensures
        ({
            let one = repair_cycle(agent, sheet, first, first_repair);
            let two = repair_cycle(one.agent, one.sheet, second, second_repair);
            let last = advance_model(
                two.agent,
                two.sheet,
                EventView::BuildFinished { success: false, stderr: third },
            );
            &&& one.agent.bug_count == 1
            &&& two.agent.bug_count == 2
            &&& last.agent.bug_count == 3
            &&& last.agent.bug_errors == Some(third)
            &&& last.agent.pending is Stopped
            &&& last.step.next == NextView::Abort(AgentError::RetryBudgetExhausted)
        }),
{
    law_repair_cycle_adds_one_bug(agent, sheet, first, first_repair);
    let one = repair_cycle(agent, sheet, first, first_repair);
    law_repair_cycle_adds_one_bug(one.agent, one.sheet, second, second_repair);
    let two = repair_cycle(one.agent, one.sheet, second, second_repair);
    law_failed_build_counts_one_bug(two.agent, two.sheet, third);
}

/// A build that succeeds resets the bug count to 0, whatever it was, and
/// the agent goes on to read the source back.
pub proof fn law_successful_build_clears_bugs(
    agent: AgentView,
    sheet: FactSheetView,
    stderr: Seq<char>,
)
    requires
        agent.pending is Build,
    ensures
        ({
            let after = advance_model(
                agent,
                sheet,
                EventView::BuildFinished { success: true, stderr },
            );
            &&& after.agent.bug_count == 0
            &&& after.agent.bug_errors == agent.bug_errors
            &&& after.agent.attributes == agent.attributes
            &&& after.agent.pending is Source
            &&& after.sheet == sheet
            &&& after.step.next == NextView::Ask(QueryView::ReadExecMain)
        }),
{
}

/// Only a failure of the transport kills the server, and it kills it
/// exactly once: what a probe calls for holds one kill after such a
/// failure and none after any status.
pub proof fn law_reaction_kills_once(agent: AgentView, route: Seq<char>, outcome: ProbeOutcomeView)
    ensures
        kill_count(probe_reaction(agent, route, outcome)) == if outcome is TransportFailure {
            1nat
        } else {
            0nat
        },
{
    let effects = probe_reaction(agent, route, outcome);
    reveal_with_fuel(kill_count, 3);
    match outcome {
        ProbeOutcomeView::Status(_) => {},
        ProbeOutcomeView::TransportFailure(reason) => {
            assert(effects.drop_last() =~= seq![EffectView::KillServer]);
            assert(effects.drop_last().drop_last() =~= Seq::<EffectView>::empty());
        },
    }
}

/// A probe that does not reach the server kills the server and says why,
/// and then the validator goes on exactly as after a probe that passed:
/// the same route is probed next, or the validation ends in the same
/// way. The failure stops neither the scan nor the run.
pub proof fn law_transport_failure_kills_and_goes_on(
    agent: AgentView,
    sheet: FactSheetView,
    reason: Seq<char>,
)
    requires
        agent.wf(),
        agent.pending is Probe,
    ensures
        ({
            let failed = advance_model(
                agent,
                sheet,
                EventView::Probed(ProbeOutcomeView::TransportFailure(reason)),
            );
            let passed = advance_model(
                agent,
                sheet,
                EventView::Probed(ProbeOutcomeView::Status(STATUS_OK)),
            );
            &&& failed.step.effects == seq![
                EffectView::KillServer,
                agent.announces(PrintCommand::Issue, failure_statement(reason)),
            ] + passed.step.effects
            &&& failed.step.next == passed.step.next
            &&& !(failed.step.next is Abort)
            &&& failed.agent == passed.agent
            &&& failed.sheet == sheet
        }),
        agent.pending matches PendingView::Probe { routes, index, .. } ==> (index + 1
            < routes.len() ==> advance_model(
            agent,
            sheet,
            EventView::Probed(ProbeOutcomeView::TransportFailure(reason)),
        ).step.next == NextView::Ask(
            QueryView::Probe {
                url: probe_address(routes[index as int + 1]),
                timeout_seconds: crate::validator::PROBE_TIMEOUT_SECONDS,
            },
        )),
{
    let failed = advance_model(
        agent,
        sheet,
        EventView::Probed(ProbeOutcomeView::TransportFailure(reason)),
    );
    let passed = advance_model(agent, sheet, EventView::Probed(ProbeOutcomeView::Status(STATUS_OK)));
    assert(failed.step.effects =~= seq![
        EffectView::KillServer,
        agent.announces(PrintCommand::Issue, failure_statement(reason)),
    ] + passed.step.effects);
}

/// A route that answers with another status than 200 earns a warning and
/// nothing else: the server is not killed, and the validator goes on
/// exactly as after a probe that passed.
pub proof fn law_bad_status_only_warns(agent: AgentView, sheet: FactSheetView, status: u16)
    requires
        agent.wf(),
        agent.pending is Probe,
        status != STATUS_OK,
    ensures
        ({
            let warned = advance_model(
                agent,
                sheet,
                EventView::Probed(ProbeOutcomeView::Status(status)),
            );
            let passed = advance_model(
                agent,
                sheet,
                EventView::Probed(ProbeOutcomeView::Status(STATUS_OK)),
            );
            &&& agent.pending matches PendingView::Probe { routes, index, .. }
            &&& warned.step.effects == seq![
                agent.announces(
                    PrintCommand::Issue,
                    crate::validator::warning_statement(routes[index as int]),
                ),
            ] + passed.step.effects
            &&& warned.step.next == passed.step.next
            &&& warned.agent == passed.agent
            &&& warned.sheet == sheet
        }),
{
    let warned = advance_model(agent, sheet, EventView::Probed(ProbeOutcomeView::Status(status)));
    let passed = advance_model(agent, sheet, EventView::Probed(ProbeOutcomeView::Status(STATUS_OK)));
    if let PendingView::Probe { routes, index, .. } = agent.pending {
        assert(warned.step.effects =~= seq![
            agent.announces(
                PrintCommand::Issue,
                crate::validator::warning_statement(routes[index as int]),
            ),
        ] + passed.step.effects);
    }
}

/// A request is sent twice at most, and both times with the same message:
/// after a first failure the same message is asked for once more, after a
/// second one the run is aborted for want of transport.
pub proof fn law_one_retry_with_the_same_message(
    agent: AgentView,
    sheet: FactSheetView,
    request: TaskRequestView,
)
    requires
        agent.pending == PendingView::Model(request),
        request.attempts == 1,
    ensures
        ({
            let once = advance_model(agent, sheet, EventView::ModelFailed);
            let twice = advance_model(once.agent, once.sheet, EventView::ModelFailed);
            &&& once.step.next == NextView::Ask(QueryView::CallModel(request.message))
            &&& once.sheet == sheet
            &&& twice.step.next == NextView::Abort(AgentError::Transport)
            &&& twice.agent.pending is Stopped
            &&& twice.sheet == sheet
        }),
{
    assert(MAX_ATTEMPTS == 2);
}

/// The place of a state in the order in which the agent passes through
/// its states.
pub open spec fn state_rank(state: AgentState) -> nat {
    match state {
        AgentState::Discovery => 0,
        AgentState::Working => 1,
        AgentState::UnitTesting => 2,
        AgentState::Finished => 3,
    }
}

/// Whatever happens, the agent stays well formed, and its state only
/// moves forward, with one exception: a failed build takes it from unit
/// testing back to working.
pub proof fn law_agent_stays_well_formed(agent: AgentView, sheet: FactSheetView, event: EventView)
    requires
        agent.wf(),
    ensures
        advance_model(agent, sheet, event).agent.wf(),
        state_rank(advance_model(agent, sheet, event).agent.attributes.state) >= state_rank(
            agent.attributes.state,
        ) || (agent.pending is Build && event is BuildFinished && !event->success
            && advance_model(agent, sheet, event).agent.attributes.state == AgentState::Working),
        advance_model(agent, sheet, event).agent.attributes.objective
            == agent.attributes.objective,
        advance_model(agent, sheet, event).agent.attributes.position == agent.attributes.position,
        advance_model(agent, sheet, event).agent.attributes.memory == agent.attributes.memory,
        advance_model(agent, sheet, event).sheet.project_description == sheet.project_description,
{
}

/// An aborted run stays aborted, and a step that aborts or refuses asks
/// for nothing: the server is never started after an abort.
pub proof fn law_abort_is_final(agent: AgentView, sheet: FactSheetView, event: EventView)
    requires
        agent.pending is Stopped,
    ensures
        advance_model(agent, sheet, event) == crate::model::refused(agent, sheet),
{
}

} // verus!
