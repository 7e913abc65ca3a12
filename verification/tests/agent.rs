use auto_gippity::agent::AgentState;
use auto_gippity::backend::AgentBackendDeveloper;
use auto_gippity::capability::Capability;
use auto_gippity::command_line::PrintCommand;
use auto_gippity::context::{
    write_endpoints_context, write_fix_code_context, write_improved_code_context,
    write_initial_code_context,
};
use auto_gippity::fact_sheet::{FactSheet, RouteObject};
use auto_gippity::prompt::extend_ai_function;
use auto_gippity::protocol::{AgentError, Effect, Event, Next, Query, Step};
use auto_gippity::validator::ProbeOutcome;

fn route(path: &str, method: &str, dynamic: &str) -> RouteObject {
    RouteObject {
        is_route_dynamic: dynamic.to_string(),
        method: method.to_string(),
        request_body: "null".to_string(),
        response: "{}".to_string(),
        route: path.to_string(),
    }
}

fn notice(kind: PrintCommand, statement: &str) -> Effect {
    Effect::Announce {
        kind,
        position: "Backend Developer".to_string(),
        statement: statement.to_string(),
    }
}

fn probe(path: &str) -> Next {
    Next::Ask(Query::Probe {
        url: format!("http://localhost:8080{}", path),
        timeout_seconds: 5,
    })
}

fn build_failed(report: &str) -> Event {
    Event::BuildFinished { success: false, stderr: report.to_string() }
}

fn build_succeeded() -> Event {
    Event::BuildFinished { success: true, stderr: "warning: unused".to_string() }
}

/// Drives a new agent up to its first build.
fn agent_at_first_build(sheet: &mut FactSheet) -> AgentBackendDeveloper {
    let mut agent = AgentBackendDeveloper::new();
    agent.advance(sheet, Event::Start);
    agent.advance(sheet, Event::TemplateRead("fn template() {}".to_string()));
    agent.advance(sheet, Event::ModelReplied("fn first() {}".to_string()));
    agent.advance(sheet, Event::ModelReplied("fn second() {}".to_string()));
    let step = agent.advance(sheet, Event::Confirmed(true));
    assert_eq!(step.next, Next::Ask(Query::Build));
    agent
}

/// Drives a new agent up to the start of the server, with these routes decoded.
fn agent_at_spawn(sheet: &mut FactSheet, schema: &str, routes: Vec<RouteObject>) -> AgentBackendDeveloper {
    let mut agent = agent_at_first_build(sheet);
    agent.advance(sheet, build_succeeded());
    agent.advance(sheet, Event::SourceRead("fn second() {}".to_string()));
    let step = agent.advance(sheet, Event::ModelReplied(schema.to_string()));
    assert_eq!(step.next, Next::Ask(Query::DecodeRoutes(schema.to_string())));
    let step = agent.advance(sheet, Event::RoutesDecoded(routes));
    assert_eq!(step.next, Next::Ask(Query::SpawnServer));
    agent
}

fn kills(step: &Step) -> usize {
    step.effects.iter().filter(|effect| **effect == Effect::KillServer).count()
}

#[test]
fn a_new_agent_is_in_discovery_without_bugs() {
    let agent = AgentBackendDeveloper::new();
    assert_eq!(agent.state(), AgentState::Discovery);
    assert_eq!(agent.bug_count(), 0);
    assert_eq!(agent.bug_errors(), &None);
    assert!(!agent.is_waiting());
    assert!(!agent.is_stopped());
    let attributes = agent.get_attributes_from_agent();
    assert_eq!(attributes.objective, "Develops backend code for webserver and json database");
    assert_eq!(attributes.position, "Backend Developer");
    assert_eq!(attributes.state, AgentState::Discovery);
    assert!(attributes.memory.is_empty());
}

#[test]
fn discovery_asks_for_the_template_and_then_for_code() {
    let mut sheet = FactSheet::new("return the current time".to_string());
    let mut agent = AgentBackendDeveloper::new();
    let step = agent.advance(&mut sheet, Event::Start);
    assert_eq!(step, Step { effects: vec![], next: Next::Ask(Query::ReadCodeTemplate) });
    assert!(agent.is_waiting());
    let step = agent.advance(&mut sheet, Event::TemplateRead("fn template() {}".to_string()));
    let context = write_initial_code_context("fn template() {}", "return the current time");
    assert_eq!(
        step,
        Step {
            effects: vec![notice(PrintCommand::AICall, "print_backend_webserver_code")],
            next: Next::Ask(Query::CallModel(extend_ai_function(
                Capability::PrintBackendWebserverCode,
                &context
            ))),
        }
    );
    assert_eq!(agent.state(), AgentState::Discovery);
    assert_eq!(sheet.backend_code, None);
}

#[test]
fn generated_code_is_saved_stored_and_then_improved() {
    let mut sheet = FactSheet::new("return the current time".to_string());
    let mut agent = AgentBackendDeveloper::new();
    agent.advance(&mut sheet, Event::Start);
    agent.advance(&mut sheet, Event::TemplateRead("fn template() {}".to_string()));
    let step = agent.advance(&mut sheet, Event::ModelReplied("fn first() {}".to_string()));
    assert_eq!(sheet.backend_code, Some("fn first() {}".to_string()));
    assert_eq!(agent.state(), AgentState::Working);
    let context = write_improved_code_context(&sheet);
    assert_eq!(
        step,
        Step {
            effects: vec![
                Effect::SaveBackendCode("fn first() {}".to_string()),
                notice(PrintCommand::AICall, "print_improved_webserver_code"),
            ],
            next: Next::Ask(Query::CallModel(extend_ai_function(
                Capability::PrintImprovedWebserverCode,
                &context
            ))),
        }
    );
    let step = agent.advance(&mut sheet, Event::ModelReplied("fn second() {}".to_string()));
    assert_eq!(sheet.backend_code, Some("fn second() {}".to_string()));
    assert_eq!(agent.state(), AgentState::UnitTesting);
    assert_eq!(
        step,
        Step {
            effects: vec![
                Effect::SaveBackendCode("fn second() {}".to_string()),
                notice(PrintCommand::UnitTest, "Backend Code Unit testing: Requesting user input"),
            ],
            next: Next::Ask(Query::ConfirmSafeCode),
        }
    );
}

#[test]
fn scenario_without_checkable_routes_reaches_finished() {
    let mut sheet = FactSheet::new("return the current time".to_string());
    let mut agent = agent_at_first_build(&mut sheet);
    let step = agent.advance(&mut sheet, build_succeeded());
    assert_eq!(
        step,
        Step {
            effects: vec![notice(
                PrintCommand::UnitTest,
                "Backend Code Unit Testing: Test server build successful..."
            )],
            next: Next::Ask(Query::ReadExecMain),
        }
    );
    let step = agent.advance(&mut sheet, Event::SourceRead("fn second() {}".to_string()));
    assert_eq!(
        step,
        Step {
            effects: vec![notice(PrintCommand::AICall, "print_rest_api_endpoints")],
            next: Next::Ask(Query::CallModel(extend_ai_function(
                Capability::PrintRestApiEndpoints,
                &write_endpoints_context("fn second() {}")
            ))),
        }
    );
    let step = agent.advance(&mut sheet, Event::ModelReplied("[]".to_string()));
    assert_eq!(step, Step { effects: vec![], next: Next::Ask(Query::DecodeRoutes("[]".to_string())) });
    let step = agent.advance(&mut sheet, Event::RoutesDecoded(vec![]));
    assert_eq!(
        step,
        Step {
            effects: vec![notice(
                PrintCommand::UnitTest,
                "Backend Code Unit Testing: Starting web server..."
            )],
            next: Next::Ask(Query::SpawnServer),
        }
    );
    assert_eq!(sheet.api_endpoint_schema, Some(vec![]));
    let step = agent.advance(&mut sheet, Event::ServerSpawned);
    assert_eq!(
        step,
        Step {
            effects: vec![
                notice(
                    PrintCommand::UnitTest,
                    "Backend Code Unit Testing: Launching tests on server in 5 seconds..."
                ),
                Effect::WarmUp { seconds: 5 },
                Effect::SaveApiEndpoints("[]".to_string()),
                notice(PrintCommand::UnitTest, "Backend testing complete..."),
                Effect::KillServer,
            ],
            next: Next::Finished,
        }
    );
    assert_eq!(agent.state(), AgentState::Finished);
    assert!(!agent.is_waiting());
    assert_eq!(agent.bug_count(), 0);
    assert_eq!(sheet.project_description, "return the current time");
}

#[test]
fn a_finished_agent_does_nothing_when_started() {
    let mut sheet = FactSheet::new("return the current time".to_string());
    let mut agent = agent_at_spawn(&mut sheet, "[]", vec![]);
    agent.advance(&mut sheet, Event::ServerSpawned);
    assert_eq!(agent.state(), AgentState::Finished);
    let before = sheet.clone();
    let step = agent.advance(&mut sheet, Event::Start);
    assert_eq!(step, Step { effects: vec![], next: Next::Finished });
    assert_eq!(agent.state(), AgentState::Finished);
    assert_eq!(sheet, before);
}

#[test]
fn scenario_one_failed_build_then_success() {
    let mut sheet = FactSheet::new("return the current time".to_string());
    let mut agent = agent_at_first_build(&mut sheet);
    assert_eq!(agent.bug_count(), 0);
    let step = agent.advance(&mut sheet, build_failed("error: expected `;`"));
    assert_eq!(agent.bug_count(), 1);
    assert_eq!(agent.bug_errors(), &Some("error: expected `;`".to_string()));
    assert_eq!(agent.state(), AgentState::Working);
    let context = write_fix_code_context(&sheet, &Some("error: expected `;`".to_string()));
    assert!(context.contains("error: expected `;`"));
    assert!(context.contains("fn second() {}"));
    assert_eq!(
        step,
        Step {
            effects: vec![notice(PrintCommand::AICall, "print_fixed_code")],
            next: Next::Ask(Query::CallModel(extend_ai_function(
                Capability::PrintFixedCode,
                &context
            ))),
        }
    );
    let step = agent.advance(&mut sheet, Event::ModelReplied("fn third() {}".to_string()));
    assert_eq!(step.next, Next::Ask(Query::ConfirmSafeCode));
    assert_eq!(step.effects[0], Effect::SaveBackendCode("fn third() {}".to_string()));
    assert_eq!(sheet.backend_code, Some("fn third() {}".to_string()));
    assert_eq!(agent.state(), AgentState::UnitTesting);
    assert_eq!(agent.bug_count(), 1);
    let step = agent.advance(&mut sheet, Event::Confirmed(true));
    assert_eq!(
        step,
        Step {
            effects: vec![notice(
                PrintCommand::UnitTest,
                "Backend Code Unit Testing: Building Project..."
            )],
            next: Next::Ask(Query::Build),
        }
    );
    let step = agent.advance(&mut sheet, build_succeeded());
    assert_eq!(agent.bug_count(), 0);
    assert_eq!(step.next, Next::Ask(Query::ReadExecMain));
    assert_eq!(agent.bug_errors(), &Some("error: expected `;`".to_string()));
    let step = agent.advance(&mut sheet, Event::SourceRead("fn third() {}".to_string()));
    assert_eq!(
        step.next,
        Next::Ask(Query::CallModel(extend_ai_function(
            Capability::PrintRestApiEndpoints,
            "CODE_INPUT: fn third() {}"
        )))
    );
}

#[test]
fn scenario_three_failed_builds_abort_before_any_spawn() {
    let mut sheet = FactSheet::new("return the current time".to_string());
    let mut agent = agent_at_first_build(&mut sheet);
    let mut asked: Vec<Next> = Vec::new();
    let step = agent.advance(&mut sheet, build_failed("first report"));
    asked.push(step.next);
    assert_eq!(agent.bug_count(), 1);
    asked.push(agent.advance(&mut sheet, Event::ModelReplied("fn a() {}".to_string())).next);
    asked.push(agent.advance(&mut sheet, Event::Confirmed(true)).next);
    let step = agent.advance(&mut sheet, build_failed("second report"));
    asked.push(step.next);
    assert_eq!(agent.bug_count(), 2);
    assert_eq!(agent.bug_errors(), &Some("second report".to_string()));
    asked.push(agent.advance(&mut sheet, Event::ModelReplied("fn b() {}".to_string())).next);
    asked.push(agent.advance(&mut sheet, Event::Confirmed(true)).next);
    let step = agent.advance(&mut sheet, build_failed("third report"));
    assert_eq!(
        step,
        Step {
            effects: vec![notice(
                PrintCommand::Issue,
                "Backend Code Unit Testing: Too many bugs found in code"
            )],
            next: Next::Abort(AgentError::RetryBudgetExhausted),
        }
    );
    assert_eq!(agent.bug_count(), 3);
    assert_eq!(agent.bug_errors(), &Some("third report".to_string()));
    assert_eq!(agent.state(), AgentState::UnitTesting);
    assert!(agent.is_stopped());
    assert!(!asked.contains(&Next::Ask(Query::SpawnServer)));
    assert_eq!(sheet.api_endpoint_schema, None);
    assert_eq!(sheet.backend_code, Some("fn b() {}".to_string()));
}

#[test]
fn an_aborted_run_stays_aborted() {
    let mut sheet = FactSheet::new("return the current time".to_string());
    let mut agent = agent_at_first_build(&mut sheet);
    let step = agent.advance(&mut sheet, Event::ToolchainUnavailable);
    assert_eq!(step, Step { effects: vec![], next: Next::Abort(AgentError::ToolchainUnavailable) });
    assert!(agent.is_stopped());
    for event in [Event::Start, build_succeeded(), Event::Confirmed(true), Event::ServerSpawned] {
        let step = agent.advance(&mut sheet, event);
        assert_eq!(step, Step { effects: vec![], next: Next::Abort(AgentError::UnexpectedEvent) });
        assert!(agent.is_stopped());
    }
}

#[test]
fn scenario_bad_status_is_a_warning_and_the_run_finishes() {
    let mut sheet = FactSheet::new("a status page".to_string());
    let routes = vec![
        route("/status", "get", "false"),
        route("/item/{id}", "get", "true"),
        route("/item", "post", "false"),
        route("/health", "get", "false"),
    ];
    let mut agent = agent_at_spawn(&mut sheet, "[raw schema]", routes);
    assert_eq!(
        sheet.api_endpoint_schema,
        Some(vec![route("/status", "get", "false"), route("/health", "get", "false")])
    );
    let step = agent.advance(&mut sheet, Event::ServerSpawned);
    assert_eq!(
        step,
        Step {
            effects: vec![
                notice(
                    PrintCommand::UnitTest,
                    "Backend Code Unit Testing: Launching tests on server in 5 seconds..."
                ),
                Effect::WarmUp { seconds: 5 },
                notice(PrintCommand::UnitTest, "Testing endpoint '/status'..."),
            ],
            next: probe("/status"),
        }
    );
    let step = agent.advance(&mut sheet, Event::Probed(ProbeOutcome::Status(503)));
    assert_eq!(
        step,
        Step {
            effects: vec![
                notice(
                    PrintCommand::Issue,
                    "WARNING: Failed to call backend url endpoint /status"
                ),
                notice(PrintCommand::UnitTest, "Testing endpoint '/health'..."),
            ],
            next: probe("/health"),
        }
    );
    assert_eq!(kills(&step), 0);
    assert_eq!(agent.state(), AgentState::UnitTesting);
    let step = agent.advance(&mut sheet, Event::Probed(ProbeOutcome::Status(200)));
    assert_eq!(
        step,
        Step {
            effects: vec![
                Effect::SaveApiEndpoints("[raw schema]".to_string()),
                notice(PrintCommand::UnitTest, "Backend testing complete..."),
                Effect::KillServer,
            ],
            next: Next::Finished,
        }
    );
    assert_eq!(agent.state(), AgentState::Finished);
}

#[test]
fn a_transport_failure_kills_once_and_the_scan_goes_on() {
    let mut sheet = FactSheet::new("a status page".to_string());
    let routes = vec![
        route("/a", "get", "false"),
        route("/b", "get", "false"),
        route("/c", "get", "false"),
    ];
    let mut agent = agent_at_spawn(&mut sheet, "[three]", routes);
    let step = agent.advance(&mut sheet, Event::ServerSpawned);
    assert_eq!(step.next, probe("/a"));
    assert_eq!(kills(&step), 0);
    let failure = ProbeOutcome::TransportFailure("connection refused".to_string());
    let step = agent.advance(&mut sheet, Event::Probed(failure.clone()));
    assert_eq!(
        step,
        Step {
            effects: vec![
                Effect::KillServer,
                notice(PrintCommand::Issue, "Error checking Backend connection refused"),
                notice(PrintCommand::UnitTest, "Testing endpoint '/b'..."),
            ],
            next: probe("/b"),
        }
    );
    assert_eq!(kills(&step), 1);
    let step = agent.advance(&mut sheet, Event::Probed(ProbeOutcome::Status(200)));
    assert_eq!(
        step,
        Step {
            effects: vec![notice(PrintCommand::UnitTest, "Testing endpoint '/c'...")],
            next: probe("/c"),
        }
    );
    let step = agent.advance(&mut sheet, Event::Probed(failure));
    assert_eq!(
        step,
        Step {
            effects: vec![
                Effect::KillServer,
                notice(PrintCommand::Issue, "Error checking Backend connection refused"),
                Effect::SaveApiEndpoints("[three]".to_string()),
                notice(PrintCommand::UnitTest, "Backend testing complete..."),
                Effect::KillServer,
            ],
            next: Next::Finished,
        }
    );
    assert_eq!(agent.state(), AgentState::Finished);
}

#[test]
fn a_new_schema_replaces_the_old_one() {
    let mut sheet = FactSheet::new("a status page".to_string());
    sheet.api_endpoint_schema = Some(vec![route("/old", "get", "false")]);
    let agent = agent_at_spawn(&mut sheet, "[]", vec![route("/new", "get", "false")]);
    assert_eq!(sheet.api_endpoint_schema, Some(vec![route("/new", "get", "false")]));
    assert!(agent.is_waiting());
}

#[test]
fn the_model_is_asked_twice_at_most() {
    let mut sheet = FactSheet::new("return the current time".to_string());
    let mut agent = AgentBackendDeveloper::new();
    agent.advance(&mut sheet, Event::Start);
    let first = agent.advance(&mut sheet, Event::TemplateRead("fn template() {}".to_string()));
    let second = agent.advance(&mut sheet, Event::ModelFailed);
    assert_eq!(second, first);
    assert!(!agent.is_stopped());
    let third = agent.advance(&mut sheet, Event::ModelFailed);
    assert_eq!(third, Step { effects: vec![], next: Next::Abort(AgentError::Transport) });
    assert!(agent.is_stopped());
    assert_eq!(sheet.backend_code, None);
}

#[test]
fn an_answer_after_one_failure_is_taken() {
    let mut sheet = FactSheet::new("return the current time".to_string());
    let mut agent = AgentBackendDeveloper::new();
    agent.advance(&mut sheet, Event::Start);
    agent.advance(&mut sheet, Event::TemplateRead("fn template() {}".to_string()));
    agent.advance(&mut sheet, Event::ModelFailed);
    let step = agent.advance(&mut sheet, Event::ModelReplied("fn first() {}".to_string()));
    assert_eq!(step.effects[0], Effect::SaveBackendCode("fn first() {}".to_string()));
    assert_eq!(agent.state(), AgentState::Working);
    // The next request starts with a retry of its own.
    let again = agent.advance(&mut sheet, Event::ModelFailed);
    assert!(matches!(again.next, Next::Ask(Query::CallModel(_))));
    let last = agent.advance(&mut sheet, Event::ModelFailed);
    assert_eq!(last.next, Next::Abort(AgentError::Transport));
}

#[test]
fn a_refusal_of_the_operator_aborts() {
    let mut sheet = FactSheet::new("return the current time".to_string());
    let mut agent = AgentBackendDeveloper::new();
    agent.advance(&mut sheet, Event::Start);
    agent.advance(&mut sheet, Event::TemplateRead("fn template() {}".to_string()));
    agent.advance(&mut sheet, Event::ModelReplied("fn first() {}".to_string()));
    agent.advance(&mut sheet, Event::ModelReplied("fn second() {}".to_string()));
    let step = agent.advance(&mut sheet, Event::Confirmed(false));
    assert_eq!(step, Step { effects: vec![], next: Next::Abort(AgentError::OperatorRefused) });
    assert!(agent.is_stopped());
    assert_eq!(agent.state(), AgentState::UnitTesting);
}

#[test]
fn a_schema_that_cannot_be_decoded_aborts() {
    let mut sheet = FactSheet::new("return the current time".to_string());
    let mut agent = agent_at_first_build(&mut sheet);
    agent.advance(&mut sheet, build_succeeded());
    agent.advance(&mut sheet, Event::SourceRead("fn second() {}".to_string()));
    agent.advance(&mut sheet, Event::ModelReplied("not json".to_string()));
    let step = agent.advance(&mut sheet, Event::DecodeFailed);
    assert_eq!(step, Step { effects: vec![], next: Next::Abort(AgentError::Decode) });
    assert!(agent.is_stopped());
    assert_eq!(sheet.api_endpoint_schema, None);
}

#[test]
fn a_server_that_cannot_be_started_aborts() {
    let mut sheet = FactSheet::new("return the current time".to_string());
    let mut agent = agent_at_spawn(&mut sheet, "[]", vec![route("/a", "get", "false")]);
    let step = agent.advance(&mut sheet, Event::ToolchainUnavailable);
    assert_eq!(step, Step { effects: vec![], next: Next::Abort(AgentError::ToolchainUnavailable) });
    assert!(agent.is_stopped());
}

#[test]
fn an_event_out_of_turn_changes_nothing() {
    let mut sheet = FactSheet::new("return the current time".to_string());
    let mut agent = AgentBackendDeveloper::new();
    let step = agent.advance(&mut sheet, Event::Confirmed(true));
    assert_eq!(step, Step { effects: vec![], next: Next::Abort(AgentError::UnexpectedEvent) });
    assert!(!agent.is_stopped());
    assert_eq!(agent.state(), AgentState::Discovery);
    agent.advance(&mut sheet, Event::Start);
    let before = sheet.clone();
    for event in [
        Event::Start,
        Event::ModelReplied("x".to_string()),
        Event::ModelFailed,
        build_succeeded(),
        Event::ToolchainUnavailable,
        Event::SourceRead("x".to_string()),
        Event::RoutesDecoded(vec![route("/a", "get", "false")]),
        Event::DecodeFailed,
        Event::ServerSpawned,
        Event::Probed(ProbeOutcome::Status(200)),
    ] {
        let step = agent.advance(&mut sheet, event);
        assert_eq!(step, Step { effects: vec![], next: Next::Abort(AgentError::UnexpectedEvent) });
        assert!(agent.is_waiting());
        assert_eq!(sheet, before);
    }
    let step = agent.advance(&mut sheet, Event::TemplateRead("t".to_string()));
    assert!(matches!(step.next, Next::Ask(Query::CallModel(_))));
}
