use auto_gippity::agent_architect::{AgentSolutionArchitect, ArchitectPhase};
use auto_gippity::agent_backend::{write_backend_context, AgentBackendDeveloper, BackendPhase};
use auto_gippity::agent_traits::{
    Action, Event, FactSheet, ProbeOutcome, ProjectScope, RouteObject,
};
use auto_gippity::agent_unit_tester::{
    write_probe_diagnostic, write_repair_context, AgentUnitTester, TesterPhase,
    DEFAULT_RETRY_BUDGET,
};
use auto_gippity::ai_functions::{
    BACKEND_CODE_INSTRUCTION, FIXED_CODE_INSTRUCTION, REST_API_ENDPOINTS_INSTRUCTION,
    SCOPE_INSTRUCTION, SITE_URLS_INSTRUCTION,
};
use auto_gippity::basic_agent::{is_legal_transition, AgentState, BasicAgent, IllegalTransition};
use auto_gippity::command_line::PrintCommand;
use auto_gippity::errors::StageError;
use auto_gippity::llm::Message;

fn scope(storage: bool, auth: bool, urls: bool) -> ProjectScope {
    ProjectScope {
        needs_persistent_storage: storage,
        needs_user_auth: auth,
        needs_external_urls: urls,
    }
}

fn route(path: &str) -> RouteObject {
    RouteObject {
        path: path.to_string(),
        method: "get".to_string(),
        description: "lists".to_string(),
    }
}

fn built_sheet() -> FactSheet {
    let mut sheet = FactSheet::new("a todo service".to_string());
    sheet.project_scope = Some(scope(true, false, false));
    sheet.backend_code = Some("fn main() {}".to_string());
    sheet.api_endpoint_schema = Some(vec![route("/todos"), route("/health")]);
    sheet
}

fn failing_build(diagnostic: &str) -> Event {
    Event::Built { success: false, diagnostic: diagnostic.to_string() }
}

fn passing_build() -> Event {
    Event::Built { success: true, diagnostic: String::new() }
}

#[test]
fn fresh_agent_is_in_discovery_with_empty_memory() {
    let agent = BasicAgent::new("objective".to_string(), "position".to_string());
    assert_eq!(agent.get_objective(), "objective");
    assert_eq!(agent.get_position(), "position");
    assert_eq!(*agent.get_state(), AgentState::Discovery);
    assert!(agent.get_memory().is_empty());
}

#[test]
fn transition_table() {
    let discovery = AgentState::Discovery;
    let working = AgentState::Working;
    let unit_testing = AgentState::UnitTesting;
    let finished = AgentState::Finished;
    let legal = vec![
        (discovery, working),
        (discovery, unit_testing),
        (discovery, finished),
        (working, working),
        (working, unit_testing),
        (working, finished),
        (unit_testing, working),
        (unit_testing, finished),
    ];
    for from in [discovery, working, unit_testing, finished] {
        for to in [discovery, working, unit_testing, finished] {
            assert_eq!(is_legal_transition(from, to), legal.contains(&(from, to)));
        }
    }
}

#[test]
fn legal_transition_moves_the_agent() {
    let mut agent = BasicAgent::new("o".to_string(), "p".to_string());
    assert_eq!(agent.update_state(AgentState::Working), Ok(()));
    assert_eq!(agent.state, AgentState::Working);
    assert_eq!(agent.update_state(AgentState::Working), Ok(()));
    assert_eq!(agent.update_state(AgentState::UnitTesting), Ok(()));
    assert_eq!(agent.update_state(AgentState::Finished), Ok(()));
    assert_eq!(agent.state, AgentState::Finished);
}

#[test]
fn illegal_transition_is_refused_and_changes_nothing() {
    let mut agent = BasicAgent::new("o".to_string(), "p".to_string());
    agent.append_memory(Message::user("kept".to_string()));
    assert_eq!(
        agent.update_state(AgentState::Discovery),
        Err(IllegalTransition { from: AgentState::Discovery, to: AgentState::Discovery })
    );
    assert_eq!(agent.update_state(AgentState::Finished), Ok(()));
    assert_eq!(
        agent.update_state(AgentState::Working),
        Err(IllegalTransition { from: AgentState::Finished, to: AgentState::Working })
    );
    assert_eq!(agent.state, AgentState::Finished);
    assert_eq!(agent.objective, "o");
    assert_eq!(agent.position, "p");
    assert_eq!(agent.memory.len(), 1);
}

#[test]
fn memory_only_grows_at_its_end() {
    let mut agent = BasicAgent::new("o".to_string(), "p".to_string());
    agent.append_memory(Message::user("first".to_string()));
    agent.append_memory(Message::assistant("second".to_string()));
    assert_eq!(agent.get_memory().len(), 2);
    assert_eq!(agent.get_memory()[0].role, "user");
    assert_eq!(agent.get_memory()[0].content, "first");
    assert_eq!(agent.get_memory()[1].role, "assistant");
    assert_eq!(agent.get_memory()[1].content, "second");
    assert_eq!(*agent.get_state(), AgentState::Discovery);
}

#[test]
fn architect_starts_idle() {
    let architect = AgentSolutionArchitect::new();
    assert_eq!(architect.phase(), ArchitectPhase::Idle);
    assert_eq!(architect.attributes().state, AgentState::Discovery);
    assert_eq!(
        architect.attributes().objective,
        "Gathers information and design solutions for website development"
    );
    assert_eq!(architect.attributes().position, "Solutions Architect");
    assert!(architect.attributes().memory.is_empty());
}

#[test]
fn scope_is_absent_until_the_architect_finishes() {
    let mut architect = AgentSolutionArchitect::new();
    let mut sheet = FactSheet::new("a todo service".to_string());

    let action = architect.step(&mut sheet, Event::Begin);
    match action {
        Action::Complete(request) => {
            assert_eq!(request.notice.command, PrintCommand::AICall);
            assert_eq!(request.notice.position, "Solutions Architect");
            assert_eq!(request.notice.statement, "print_project_scope");
            assert_eq!(request.messages.len(), 1);
            assert!(request.messages[0].content.contains(SCOPE_INSTRUCTION));
            assert!(request.messages[0].content.contains("a todo service"));
        }
        other => panic!("unexpected action {:?}", other),
    }
    assert!(sheet.project_scope.is_none());
    assert_eq!(architect.attributes().state, AgentState::Discovery);

    let action = architect.step(&mut sheet, Event::Completed("{...}".to_string()));
    assert!(matches!(action, Action::DecodeScope(ref text) if text == "{...}"));
    assert!(sheet.project_scope.is_none());
    assert_eq!(architect.attributes().state, AgentState::Discovery);

    let decided = scope(true, false, false);
    let action = architect.step(&mut sheet, Event::ScopeDecoded(Some(decided)));
    assert!(matches!(action, Action::Finish));
    assert_eq!(sheet.project_scope, Some(decided));
    assert_eq!(sheet.external_urls, None);
    assert_eq!(architect.attributes().state, AgentState::Finished);
    assert_eq!(architect.phase(), ArchitectPhase::Done);
}

#[test]
fn architect_probes_distinct_candidates_and_keeps_the_successful() {
    let mut architect = AgentSolutionArchitect::new();
    let mut sheet = FactSheet::new("a weather dashboard".to_string());
    architect.step(&mut sheet, Event::Begin);
    architect.step(&mut sheet, Event::Completed("scope".to_string()));

    let decided = scope(false, false, true);
    let action = architect.step(&mut sheet, Event::ScopeDecoded(Some(decided)));
    match action {
        Action::Complete(request) => {
            assert_eq!(request.notice.statement, "print_site_urls");
            assert!(request.messages[0].content.contains(SITE_URLS_INSTRUCTION));
            assert!(request.messages[0].content.contains("a weather dashboard"));
        }
        other => panic!("unexpected action {:?}", other),
    }
    assert!(sheet.project_scope.is_none());
    assert_eq!(architect.phase(), ArchitectPhase::AwaitingUrls);

    let action =
        architect.step(&mut sheet, Event::Completed("[\"A\", \"B\", \"A\", \"C\"]".to_string()));
    match action {
        Action::ProbeUrls(urls) => assert_eq!(urls, vec!["A", "B", "C"]),
        other => panic!("unexpected action {:?}", other),
    }
    assert!(sheet.project_scope.is_none());
    assert!(sheet.external_urls.is_none());
    assert_eq!(architect.attributes().state, AgentState::Discovery);

    let action = architect.step(
        &mut sheet,
        Event::Probed(vec![
            ProbeOutcome::Status(200),
            ProbeOutcome::Status(404),
            ProbeOutcome::Status(200),
        ]),
    );
    assert!(matches!(action, Action::Finish));
    assert_eq!(sheet.project_scope, Some(decided));
    assert_eq!(sheet.external_urls, Some(vec!["A".to_string(), "C".to_string()]));
    assert_eq!(architect.attributes().state, AgentState::Finished);
}

#[test]
fn unanswered_probe_drops_the_address_without_failing_the_stage() {
    let mut architect = AgentSolutionArchitect::new();
    let mut sheet = FactSheet::new("d".to_string());
    architect.step(&mut sheet, Event::Begin);
    architect.step(&mut sheet, Event::Completed("scope".to_string()));
    architect.step(&mut sheet, Event::ScopeDecoded(Some(scope(false, false, true))));
    architect.step(&mut sheet, Event::Completed("[\"slow\", \"fast\"]".to_string()));
    let action = architect.step(
        &mut sheet,
        Event::Probed(vec![ProbeOutcome::NoAnswer, ProbeOutcome::Status(200)]),
    );
    assert!(matches!(action, Action::Finish));
    assert_eq!(sheet.external_urls, Some(vec!["fast".to_string()]));
}

#[test]
fn architect_failures_are_fatal_and_leave_the_record_untouched() {
    let mut architect = AgentSolutionArchitect::new();
    let mut sheet = FactSheet::new("d".to_string());
    architect.step(&mut sheet, Event::Begin);
    let action = architect.step(&mut sheet, Event::GatewayFailed);
    assert!(matches!(action, Action::Abort(StageError::Gateway)));
    assert_eq!(architect.phase(), ArchitectPhase::Failed);
    assert_eq!(architect.attributes().state, AgentState::Discovery);
    assert!(sheet.project_scope.is_none());

    let mut architect = AgentSolutionArchitect::new();
    architect.step(&mut sheet, Event::Begin);
    architect.step(&mut sheet, Event::Completed("not json".to_string()));
    let action = architect.step(&mut sheet, Event::ScopeDecoded(None));
    assert!(matches!(action, Action::Abort(StageError::Decode)));
    assert!(sheet.project_scope.is_none());

    let mut architect = AgentSolutionArchitect::new();
    architect.step(&mut sheet, Event::Begin);
    architect.step(&mut sheet, Event::Completed("scope".to_string()));
    architect.step(&mut sheet, Event::ScopeDecoded(Some(scope(false, false, true))));
    let action = architect.step(&mut sheet, Event::Completed("no list".to_string()));
    assert!(matches!(action, Action::Abort(StageError::Decode)));
    assert_eq!(architect.phase(), ArchitectPhase::Failed);
    assert!(sheet.project_scope.is_none());
    assert!(sheet.external_urls.is_none());
}

#[test]
fn event_out_of_turn_changes_nothing() {
    let mut architect = AgentSolutionArchitect::new();
    let mut sheet = FactSheet::new("d".to_string());
    let action = architect.step(&mut sheet, Event::Saved);
    assert!(matches!(action, Action::Abort(StageError::OutOfTurn)));
    assert_eq!(architect.phase(), ArchitectPhase::Idle);
    architect.step(&mut sheet, Event::Begin);
    let action = architect.step(&mut sheet, Event::Begin);
    assert!(matches!(action, Action::Abort(StageError::OutOfTurn)));
    assert_eq!(architect.phase(), ArchitectPhase::AwaitingScope);

    architect.step(&mut sheet, Event::Completed("scope".to_string()));
    architect.step(&mut sheet, Event::ScopeDecoded(Some(scope(false, false, true))));
    architect.step(&mut sheet, Event::Completed("[\"A\", \"B\"]".to_string()));
    let action = architect.step(&mut sheet, Event::Probed(vec![ProbeOutcome::Status(200)]));
    assert!(matches!(action, Action::Abort(StageError::OutOfTurn)));
    assert_eq!(architect.phase(), ArchitectPhase::Probing);
    assert!(sheet.project_scope.is_none());
}

#[test]
fn proposal_is_taken_only_while_it_is_waited_for() {
    let mut architect = AgentSolutionArchitect::new();
    let action = architect.on_proposal(Ok(vec!["A".to_string()]));
    assert!(matches!(action, Action::Abort(StageError::OutOfTurn)));
    assert_eq!(architect.phase(), ArchitectPhase::Idle);

    let mut sheet = FactSheet::new("d".to_string());
    architect.step(&mut sheet, Event::Begin);
    architect.step(&mut sheet, Event::Completed("scope".to_string()));
    architect.step(&mut sheet, Event::ScopeDecoded(Some(scope(false, false, true))));
    let action = architect.on_proposal(Ok(vec!["B".to_string(), "B".to_string()]));
    match action {
        Action::ProbeUrls(urls) => assert_eq!(urls, vec!["B"]),
        other => panic!("unexpected action {:?}", other),
    }
    assert_eq!(architect.phase(), ArchitectPhase::Probing);

    let mut architect = AgentSolutionArchitect::new();
    architect.step(&mut sheet, Event::Begin);
    architect.step(&mut sheet, Event::Completed("scope".to_string()));
    architect.step(&mut sheet, Event::ScopeDecoded(Some(scope(false, false, true))));
    let action = architect.on_proposal(Err(StageError::Decode));
    assert!(matches!(action, Action::Abort(StageError::Decode)));
    assert_eq!(architect.phase(), ArchitectPhase::Failed);
}

#[test]
fn backend_context_is_written_from_template_and_record() {
    let urls = Some(vec!["https://a.example".to_string(), "https://b.example".to_string()]);
    assert_eq!(
        write_backend_context("fn main() {}", "a todo service", scope(true, false, true), &urls),
        "CODE TEMPLATE: fn main() {}\nPROJECT_DESCRIPTION: a todo service\nPERSISTENT_STORAGE: yes\nUSER_AUTH: no\nEXTERNAL_URLS: https://a.example https://b.example"
    );
    assert_eq!(
        write_backend_context("", "", scope(false, true, false), &None),
        "CODE TEMPLATE: \nPROJECT_DESCRIPTION: \nPERSISTENT_STORAGE: no\nUSER_AUTH: yes\nEXTERNAL_URLS:"
    );
    assert_eq!(
        write_backend_context("t", "d", scope(false, false, true), &Some(vec![])),
        "CODE TEMPLATE: t\nPROJECT_DESCRIPTION: d\nPERSISTENT_STORAGE: no\nUSER_AUTH: no\nEXTERNAL_URLS:"
    );
}

#[test]
fn backend_writes_code_and_schema_into_the_record_when_it_finishes() {
    let mut backend = AgentBackendDeveloper::new();
    let mut sheet = FactSheet::new("a todo service".to_string());
    sheet.project_scope = Some(scope(true, false, false));

    assert!(matches!(backend.step(&mut sheet, Event::Begin), Action::ReadTemplate));
    assert_eq!(backend.attributes().state, AgentState::Discovery);

    let action = backend.step(&mut sheet, Event::TemplateRead("// template".to_string()));
    match action {
        Action::Complete(request) => {
            assert_eq!(request.notice.position, "Backend Developer");
            assert_eq!(request.notice.statement, "print_backend_webserver_code");
            assert!(request.messages[0].content.contains(BACKEND_CODE_INSTRUCTION));
            assert!(request.messages[0].content.contains(
                "CODE TEMPLATE: // template\nPROJECT_DESCRIPTION: a todo service\nPERSISTENT_STORAGE: yes\nUSER_AUTH: no\nEXTERNAL_URLS:"
            ));
        }
        other => panic!("unexpected action {:?}", other),
    }
    assert_eq!(backend.attributes().state, AgentState::Working);

    let action = backend.step(&mut sheet, Event::Completed("fn main() {}".to_string()));
    assert!(matches!(action, Action::SaveBackendCode(ref code) if code == "fn main() {}"));
    assert!(sheet.backend_code.is_none());

    let action = backend.step(&mut sheet, Event::Saved);
    match action {
        Action::Complete(request) => {
            assert_eq!(request.notice.statement, "print_rest_api_endpoints");
            assert!(request.messages[0].content.contains(REST_API_ENDPOINTS_INSTRUCTION));
            assert!(request.messages[0].content.contains("fn main() {}"));
        }
        other => panic!("unexpected action {:?}", other),
    }

    let action = backend.step(&mut sheet, Event::Completed("[{\"path\": \"/todos\"}]".to_string()));
    assert!(
        matches!(action, Action::SaveApiEndpoints(ref text) if text == "[{\"path\": \"/todos\"}]")
    );
    let action = backend.step(&mut sheet, Event::Saved);
    assert!(
        matches!(action, Action::DecodeEndpoints(ref text) if text == "[{\"path\": \"/todos\"}]")
    );
    assert!(sheet.backend_code.is_none());
    assert!(sheet.api_endpoint_schema.is_none());
    assert_eq!(backend.attributes().state, AgentState::Working);

    let action = backend.step(&mut sheet, Event::EndpointsDecoded(Some(vec![route("/todos")])));
    assert!(matches!(action, Action::Finish));
    assert_eq!(sheet.backend_code, Some("fn main() {}".to_string()));
    let schema = sheet.api_endpoint_schema.as_ref().expect("schema is set");
    assert_eq!(schema.len(), 1);
    assert_eq!(schema[0].path, "/todos");
    assert_eq!(schema[0].method, "get");
    assert_eq!(schema[0].description, "lists");
    assert_eq!(backend.attributes().state, AgentState::Finished);
    assert_eq!(backend.phase(), BackendPhase::Done);
}

#[test]
fn backend_does_not_begin_without_a_scope() {
    let mut backend = AgentBackendDeveloper::new();
    let mut sheet = FactSheet::new("d".to_string());
    let action = backend.step(&mut sheet, Event::Begin);
    assert!(matches!(action, Action::Abort(StageError::OutOfTurn)));
    assert_eq!(backend.phase(), BackendPhase::Idle);
}

#[test]
fn backend_failures_are_fatal() {
    let mut sheet = FactSheet::new("d".to_string());
    sheet.project_scope = Some(scope(false, false, false));

    let mut backend = AgentBackendDeveloper::new();
    backend.step(&mut sheet, Event::Begin);
    backend.step(&mut sheet, Event::TemplateRead("t".to_string()));
    let action = backend.step(&mut sheet, Event::GatewayFailed);
    assert!(matches!(action, Action::Abort(StageError::Gateway)));
    assert_eq!(backend.phase(), BackendPhase::Failed);

    let mut backend = AgentBackendDeveloper::new();
    backend.step(&mut sheet, Event::Begin);
    backend.step(&mut sheet, Event::TemplateRead("t".to_string()));
    backend.step(&mut sheet, Event::Completed("code".to_string()));
    backend.step(&mut sheet, Event::Saved);
    backend.step(&mut sheet, Event::Completed("schema".to_string()));
    backend.step(&mut sheet, Event::Saved);
    let action = backend.step(&mut sheet, Event::EndpointsDecoded(None));
    assert!(matches!(action, Action::Abort(StageError::Decode)));
    assert!(sheet.backend_code.is_none());
    assert!(sheet.api_endpoint_schema.is_none());
    assert_eq!(backend.attributes().state, AgentState::Working);
}

#[test]
fn repair_texts() {
    assert_eq!(
        write_repair_context("fn main() {", "error: unclosed delimiter"),
        "BROKEN_CODE: fn main() {\nERROR_BUGS: error: unclosed delimiter\nTHIS FUNCTION ONLY OUTPUTS CODE. JUST OUTPUT THE CODE."
    );
    assert_eq!(
        write_probe_diagnostic("/todos"),
        "SMOKE TEST FAILED: no success status from route /todos"
    );
}

#[test]
fn repair_loop_with_budget_two_recovers_from_two_failures() {
    let sheet = built_sheet();
    let mut tester = AgentUnitTester::with_budget(2);
    let mut corrective_calls = 0;

    assert!(matches!(tester.step(&sheet, Event::Begin), Action::Build));
    assert_eq!(tester.attributes().state, AgentState::UnitTesting);

    let action = tester.step(&sheet, failing_build("error[E0425]: first"));
    match action {
        Action::Complete(request) => {
            corrective_calls += 1;
            assert_eq!(request.notice.position, "Unit Tester");
            assert_eq!(request.notice.statement, "print_fixed_code");
            assert!(request.messages[0].content.contains(FIXED_CODE_INSTRUCTION));
            assert!(request.messages[0].content.contains(
                "BROKEN_CODE: fn main() {}\nERROR_BUGS: error[E0425]: first\n"
            ));
        }
        other => panic!("unexpected action {:?}", other),
    }
    assert_eq!(tester.attributes().state, AgentState::Working);
    assert_eq!(tester.attributes().memory.len(), 2);
    assert_eq!(tester.attributes().memory[0].role, "assistant");
    assert_eq!(tester.attributes().memory[0].content, "fn main() {}");
    assert_eq!(tester.attributes().memory[1].role, "user");
    assert_eq!(tester.attributes().memory[1].content, "error[E0425]: first");

    let action = tester.step(&sheet, Event::Completed("fn main() { v2 }".to_string()));
    assert!(matches!(action, Action::SaveBackendCode(ref code) if code == "fn main() { v2 }"));
    assert!(matches!(tester.step(&sheet, Event::Saved), Action::Build));
    assert_eq!(tester.attributes().state, AgentState::UnitTesting);

    let action = tester.step(&sheet, failing_build("error[E0308]: second"));
    match action {
        Action::Complete(request) => {
            corrective_calls += 1;
            assert!(request.messages[0].content.contains(
                "BROKEN_CODE: fn main() { v2 }\nERROR_BUGS: error[E0308]: second\n"
            ));
        }
        other => panic!("unexpected action {:?}", other),
    }
    tester.step(&sheet, Event::Completed("fn main() { v3 }".to_string()));
    assert!(matches!(tester.step(&sheet, Event::Saved), Action::Build));

    let action = tester.step(&sheet, passing_build());
    match action {
        Action::SmokeTest(paths) => assert_eq!(paths, vec!["/todos", "/health"]),
        other => panic!("unexpected action {:?}", other),
    }
    let action = tester.step(
        &sheet,
        Event::Probed(vec![ProbeOutcome::Status(200), ProbeOutcome::Status(204)]),
    );
    assert!(matches!(action, Action::Finish));

    assert_eq!(corrective_calls, 2);
    assert_eq!(tester.repairs(), 2);
    assert_eq!(tester.budget(), 2);
    assert_eq!(tester.attributes().state, AgentState::Finished);
    assert_eq!(tester.phase(), TesterPhase::Done);
    assert_eq!(tester.source(), "fn main() { v3 }");
    assert_eq!(tester.attributes().memory.len(), 4);
    assert_eq!(sheet.backend_code, Some("fn main() {}".to_string()));
}

#[test]
fn repair_loop_with_budget_one_is_fatal_after_one_correction() {
    let sheet = built_sheet();
    let mut tester = AgentUnitTester::with_budget(1);
    let mut corrective_calls = 0;

    tester.step(&sheet, Event::Begin);
    if let Action::Complete(_) = tester.step(&sheet, failing_build("first")) {
        corrective_calls += 1;
    }
    tester.step(&sheet, Event::Completed("v2".to_string()));
    tester.step(&sheet, Event::Saved);
    let action = tester.step(&sheet, failing_build("second"));
    assert!(matches!(action, Action::Abort(StageError::Compile)));

    assert_eq!(corrective_calls, 1);
    assert_eq!(tester.repairs(), 1);
    assert_eq!(tester.phase(), TesterPhase::Failed);
    assert_ne!(tester.attributes().state, AgentState::Finished);
    assert!(matches!(
        tester.step(&sheet, passing_build()),
        Action::Abort(StageError::OutOfTurn)
    ));
}

#[test]
fn failed_probe_spends_the_same_budget_as_a_failed_build() {
    let sheet = built_sheet();
    let mut tester = AgentUnitTester::with_budget(1);
    tester.step(&sheet, Event::Begin);
    tester.step(&sheet, passing_build());
    let action = tester.step(
        &sheet,
        Event::Probed(vec![ProbeOutcome::Status(200), ProbeOutcome::Status(500)]),
    );
    match action {
        Action::Complete(request) => assert!(request.messages[0].content.contains(
            "ERROR_BUGS: SMOKE TEST FAILED: no success status from route /health\n"
        )),
        other => panic!("unexpected action {:?}", other),
    }
    assert_eq!(tester.repairs(), 1);
    tester.step(&sheet, Event::Completed("v2".to_string()));
    tester.step(&sheet, Event::Saved);
    tester.step(&sheet, passing_build());
    let action = tester.step(
        &sheet,
        Event::Probed(vec![ProbeOutcome::Status(404), ProbeOutcome::Status(200)]),
    );
    assert!(matches!(action, Action::Abort(StageError::RuntimeProbe)));
    assert_eq!(tester.repairs(), 1);
    assert_eq!(tester.phase(), TesterPhase::Failed);
}

#[test]
fn budget_of_zero_allows_no_repair() {
    let sheet = built_sheet();
    let mut tester = AgentUnitTester::with_budget(0);
    tester.step(&sheet, Event::Begin);
    let action = tester.step(&sheet, failing_build("broken"));
    assert!(matches!(action, Action::Abort(StageError::Compile)));
    assert_eq!(tester.repairs(), 0);
    assert!(tester.attributes().memory.is_empty());
}

#[test]
fn unanswered_smoke_probe_is_skipped() {
    let sheet = built_sheet();
    let mut tester = AgentUnitTester::new();
    assert_eq!(tester.budget(), DEFAULT_RETRY_BUDGET);
    assert_eq!(DEFAULT_RETRY_BUDGET, 2);
    tester.step(&sheet, Event::Begin);
    tester.step(&sheet, passing_build());
    let action =
        tester.step(&sheet, Event::Probed(vec![ProbeOutcome::NoAnswer, ProbeOutcome::Status(200)]));
    assert!(matches!(action, Action::Finish));
    assert_eq!(tester.repairs(), 0);
    assert_eq!(tester.attributes().state, AgentState::Finished);
}

#[test]
fn tester_does_not_begin_without_code_and_schema() {
    let mut tester = AgentUnitTester::new();
    let mut sheet = FactSheet::new("d".to_string());
    assert!(matches!(tester.step(&sheet, Event::Begin), Action::Abort(StageError::OutOfTurn)));
    sheet.backend_code = Some("code".to_string());
    assert!(matches!(tester.step(&sheet, Event::Begin), Action::Abort(StageError::OutOfTurn)));
    assert_eq!(tester.phase(), TesterPhase::Idle);
    assert_eq!(tester.attributes().state, AgentState::Discovery);
    sheet.api_endpoint_schema = Some(vec![]);
    assert!(matches!(tester.step(&sheet, Event::Begin), Action::Build));
}

#[test]
fn gateway_failure_during_repair_is_fatal() {
    let sheet = built_sheet();
    let mut tester = AgentUnitTester::new();
    tester.step(&sheet, Event::Begin);
    tester.step(&sheet, failing_build("broken"));
    let action = tester.step(&sheet, Event::GatewayFailed);
    assert!(matches!(action, Action::Abort(StageError::Gateway)));
    assert_eq!(tester.phase(), TesterPhase::Failed);
    assert_eq!(tester.repairs(), 1);
}
