use auto_gippity::command_line::{
    confirmation_from_reply, interpret_confirmation, Colour, PrintCommand,
};
use auto_gippity::fact_sheet::{checkable_routes, RouteObject};
use auto_gippity::message::Message;
use auto_gippity::text::same_text;
use auto_gippity::validator::{
    classify_probe, failure_message, probe_url, testing_message, warning_message, ProbeOutcome,
    ProbeVerdict,
};

fn route(path: &str, method: &str, dynamic: &str) -> RouteObject {
    RouteObject {
        is_route_dynamic: dynamic.to_string(),
        method: method.to_string(),
        request_body: "null".to_string(),
        response: "{}".to_string(),
        route: path.to_string(),
    }
}

#[test]
fn only_static_get_routes_are_checkable() {
    assert!(route("/time", "get", "false").is_checkable());
    assert!(!route("/time", "post", "false").is_checkable());
    assert!(!route("/item/{id}", "get", "true").is_checkable());
    assert!(!route("/item/{id}", "delete", "true").is_checkable());
}

#[test]
fn checkable_means_the_exact_texts() {
    assert!(!route("/time", "GET", "false").is_checkable());
    assert!(!route("/time", "get", "False").is_checkable());
    assert!(!route("/time", "get", "").is_checkable());
    assert!(!route("/time", "", "false").is_checkable());
    assert!(!route("/time", "get ", "false").is_checkable());
}

#[test]
fn the_filter_keeps_order_and_content() {
    let routes = vec![
        route("/a", "get", "false"),
        route("/b", "post", "false"),
        route("/c/{id}", "get", "true"),
        route("/d", "get", "false"),
        route("/a", "get", "false"),
    ];
    let selected = checkable_routes(&routes);
    assert_eq!(
        selected,
        vec![route("/a", "get", "false"), route("/d", "get", "false"), route("/a", "get", "false")]
    );
    for kept in &selected {
        assert_eq!(kept.method, "get");
        assert_eq!(kept.is_route_dynamic, "false");
    }
}

#[test]
fn the_filter_of_nothing_and_of_nothing_checkable() {
    assert_eq!(checkable_routes(&vec![]), vec![]);
    assert_eq!(
        checkable_routes(&vec![route("/b", "post", "false"), route("/c", "get", "true")]),
        vec![]
    );
}

#[test]
fn copies_are_equal_to_what_they_copy() {
    let routes = vec![route("/a", "get", "false"), route("/b", "post", "true")];
    assert_eq!(routes[0].duplicate(), routes[0]);
    assert_eq!(routes[1].duplicate(), routes[1]);
    let message = Message { role: "user".to_string(), content: "hi".to_string() };
    assert_eq!(message.duplicate(), message);
}

#[test]
fn texts_are_compared_character_for_character() {
    assert!(same_text("get", "get"));
    assert!(same_text("", ""));
    assert!(!same_text("get", "Get"));
    assert!(!same_text("get", "gets"));
}

#[test]
fn probes_are_classified() {
    assert_eq!(classify_probe(&ProbeOutcome::Status(200)), ProbeVerdict::Pass);
    assert_eq!(classify_probe(&ProbeOutcome::Status(503)), ProbeVerdict::Warn);
    assert_eq!(classify_probe(&ProbeOutcome::Status(404)), ProbeVerdict::Warn);
    assert_eq!(classify_probe(&ProbeOutcome::Status(201)), ProbeVerdict::Warn);
    assert_eq!(classify_probe(&ProbeOutcome::Status(0)), ProbeVerdict::Warn);
    assert_eq!(
        classify_probe(&ProbeOutcome::TransportFailure("connection refused".to_string())),
        ProbeVerdict::Unreachable
    );
    assert_eq!(
        classify_probe(&ProbeOutcome::TransportFailure("".to_string())),
        ProbeVerdict::Unreachable
    );
}

#[test]
fn probe_texts_are_built_around_the_route() {
    assert_eq!(probe_url("/status"), "http://localhost:8080/status");
    assert_eq!(probe_url(""), "http://localhost:8080");
    assert_eq!(testing_message("/status"), "Testing endpoint '/status'...");
    assert_eq!(
        warning_message("/status"),
        "WARNING: Failed to call backend url endpoint /status"
    );
    assert_eq!(failure_message("timed out"), "Error checking Backend timed out");
}

#[test]
fn statements_have_their_colours() {
    assert_eq!(PrintCommand::AICall.statement_colour(), Colour::Cyan);
    assert_eq!(PrintCommand::UnitTest.statement_colour(), Colour::Magenta);
    assert_eq!(PrintCommand::Issue.statement_colour(), Colour::Red);
}

#[test]
fn normalized_answers_are_interpreted() {
    assert_eq!(interpret_confirmation("1"), Some(true));
    assert_eq!(interpret_confirmation("ok"), Some(true));
    assert_eq!(interpret_confirmation("y"), Some(true));
    assert_eq!(interpret_confirmation("2"), Some(false));
    assert_eq!(interpret_confirmation("no"), Some(false));
    assert_eq!(interpret_confirmation("n"), Some(false));
    assert_eq!(interpret_confirmation(""), None);
    assert_eq!(interpret_confirmation("yes"), None);
    assert_eq!(interpret_confirmation("Y"), None);
    assert_eq!(interpret_confirmation(" 1"), None);
    assert_eq!(interpret_confirmation("3"), None);
}

#[test]
fn typed_answers_are_trimmed_and_lowercased() {
    assert_eq!(confirmation_from_reply("  1 \n"), Some(true));
    assert_eq!(confirmation_from_reply("Y"), Some(true));
    assert_eq!(confirmation_from_reply("\tOK\r\n"), Some(true));
    assert_eq!(confirmation_from_reply("No\n"), Some(false));
    assert_eq!(confirmation_from_reply(" N "), Some(false));
    assert_eq!(confirmation_from_reply("2\n"), Some(false));
    assert_eq!(confirmation_from_reply("\n"), None);
    assert_eq!(confirmation_from_reply("o k"), None);
    assert_eq!(confirmation_from_reply("yes please"), None);
}
