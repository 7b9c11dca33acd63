use auto_gippity::agent_traits::{Action, Event, ProbeOutcome, ProjectScope, RouteObject};
use auto_gippity::ai_functions::GOAL_INSTRUCTION;
use auto_gippity::basic_agent::AgentState;
use auto_gippity::errors::StageError;
use auto_gippity::managing_agent::{FatalError, ManagerPhase, ManagingAgent, Stage};

fn todo_scope() -> ProjectScope {
    ProjectScope {
        needs_persistent_storage: true,
        needs_user_auth: false,
        needs_external_urls: false,
    }
}

fn todo_routes() -> Vec<RouteObject> {
    vec![RouteObject {
        path: "/todos".to_string(),
        method: "get".to_string(),
        description: "lists the todos".to_string(),
    }]
}

#[test]
fn goal_request_puts_the_user_request_to_the_model() {
    let request = ManagingAgent::goal_request("Build a TODO list API");
    assert_eq!(request.notice.position, "Project Manager");
    assert_eq!(request.notice.statement, "convert_user_input_to_goal");
    assert_eq!(request.messages.len(), 1);
    assert_eq!(request.messages[0].role, "system");
    assert!(request.messages[0].content.contains(GOAL_INSTRUCTION));
    assert!(request.messages[0].content.contains("Build a TODO list API"));
}

#[test]
fn manager_starts_with_the_description_and_nothing_else() {
    let manager = ManagingAgent::new("build a web service that manages todos".to_string());
    assert_eq!(manager.phase(), ManagerPhase::Idle);
    assert_eq!(manager.outcome(), None);
    assert_eq!(manager.attributes().state, AgentState::Discovery);
    assert_eq!(
        manager.attributes().objective,
        "Manage agents who are building an excellent website for the user"
    );
    assert_eq!(manager.factsheet().project_description, "build a web service that manages todos");
    assert!(manager.factsheet().project_scope.is_none());
    assert!(manager.factsheet().external_urls.is_none());
    assert!(manager.factsheet().backend_code.is_none());
    assert!(manager.factsheet().api_endpoint_schema.is_none());
    assert_eq!(manager.tester().budget(), 2);
}

#[test]
fn end_to_end_todo_list_api() {
    let mut manager = ManagingAgent::new("Build a TODO list API".to_string());

    assert!(matches!(manager.step(Event::Begin), Action::Complete(_)));
    assert_eq!(manager.phase(), ManagerPhase::Architect);
    assert_eq!(manager.attributes().state, AgentState::Working);
    assert!(matches!(
        manager.step(Event::Completed("{\"needs_persistent_storage\": true}".to_string())),
        Action::DecodeScope(_)
    ));
    assert!(manager.factsheet().project_scope.is_none());

    let action = manager.step(Event::ScopeDecoded(Some(todo_scope())));
    assert!(matches!(action, Action::ReadTemplate));
    assert_eq!(manager.phase(), ManagerPhase::Backend);
    assert_eq!(manager.factsheet().project_scope, Some(todo_scope()));
    assert_eq!(manager.architect().attributes().state, AgentState::Finished);
    assert!(manager.factsheet().external_urls.is_none());

    assert!(matches!(
        manager.step(Event::TemplateRead("// template".to_string())),
        Action::Complete(_)
    ));
    assert!(matches!(
        manager.step(Event::Completed("fn main() { serve() }".to_string())),
        Action::SaveBackendCode(_)
    ));
    assert!(matches!(manager.step(Event::Saved), Action::Complete(_)));
    assert!(matches!(
        manager.step(Event::Completed("[...]".to_string())),
        Action::SaveApiEndpoints(_)
    ));
    assert!(matches!(manager.step(Event::Saved), Action::DecodeEndpoints(_)));
    assert!(manager.factsheet().backend_code.is_none());
    assert_eq!(manager.tester().attributes().state, AgentState::Discovery);

    let action = manager.step(Event::EndpointsDecoded(Some(todo_routes())));
    assert!(matches!(action, Action::Build));
    assert_eq!(manager.phase(), ManagerPhase::Tester);
    assert_eq!(manager.backend().attributes().state, AgentState::Finished);
    assert_eq!(manager.factsheet().backend_code, Some("fn main() { serve() }".to_string()));
    assert!(manager.factsheet().api_endpoint_schema.as_ref().expect("schema").len() >= 1);

    let action = manager.step(Event::Built { success: true, diagnostic: String::new() });
    match action {
        Action::SmokeTest(paths) => assert_eq!(paths, vec!["/todos"]),
        other => panic!("unexpected action {:?}", other),
    }
    assert_eq!(manager.outcome(), None);
    let action = manager.step(Event::Probed(vec![ProbeOutcome::Status(200)]));
    assert!(matches!(action, Action::Finish));

    assert_eq!(manager.outcome(), Some(Ok(())));
    assert_eq!(manager.phase(), ManagerPhase::Done);
    assert_eq!(manager.attributes().state, AgentState::Finished);
    assert_eq!(manager.tester().attributes().state, AgentState::Finished);
    assert_eq!(manager.tester().repairs(), 0);
    assert!(!manager.factsheet().backend_code.as_ref().expect("code").is_empty());

    assert!(matches!(manager.step(Event::Begin), Action::Abort(StageError::OutOfTurn)));
    assert_eq!(manager.outcome(), Some(Ok(())));
}

#[test]
fn failure_of_a_stage_ends_the_run_before_the_next_stage() {
    let mut manager = ManagingAgent::new("d".to_string());
    manager.step(Event::Begin);
    manager.step(Event::Completed("scope".to_string()));
    let action = manager.step(Event::ScopeDecoded(None));
    assert!(matches!(action, Action::Abort(StageError::Decode)));
    assert_eq!(manager.phase(), ManagerPhase::Failed);
    assert_eq!(
        manager.outcome(),
        Some(Err(FatalError { stage: Stage::Architect, error: StageError::Decode }))
    );
    assert_eq!(manager.backend().attributes().state, AgentState::Discovery);
    assert_eq!(manager.tester().attributes().state, AgentState::Discovery);
    assert!(manager.factsheet().project_scope.is_none());

    assert!(matches!(manager.step(Event::Begin), Action::Abort(StageError::OutOfTurn)));
    assert!(matches!(manager.step(Event::Saved), Action::Abort(StageError::OutOfTurn)));
    assert_eq!(manager.phase(), ManagerPhase::Failed);
    assert_eq!(manager.backend().attributes().state, AgentState::Discovery);
}

#[test]
fn exhausted_budget_fails_the_run_in_the_tester() {
    let mut manager = ManagingAgent::with_budget("d".to_string(), 0);
    manager.step(Event::Begin);
    manager.step(Event::Completed("scope".to_string()));
    manager.step(Event::ScopeDecoded(Some(todo_scope())));
    manager.step(Event::TemplateRead("t".to_string()));
    manager.step(Event::Completed("code".to_string()));
    manager.step(Event::Saved);
    manager.step(Event::Completed("schema".to_string()));
    manager.step(Event::Saved);
    assert!(matches!(manager.step(Event::EndpointsDecoded(Some(todo_routes()))), Action::Build));
    let action = manager.step(Event::Built { success: false, diagnostic: "broken".to_string() });
    assert!(matches!(action, Action::Abort(StageError::Compile)));
    assert_eq!(
        manager.outcome(),
        Some(Err(FatalError { stage: Stage::Tester, error: StageError::Compile }))
    );
    assert_eq!(manager.attributes().state, AgentState::Working);
    assert_eq!(manager.factsheet().backend_code, Some("code".to_string()));
}

#[test]
fn event_out_of_turn_leaves_the_run_as_it_is() {
    let mut manager = ManagingAgent::new("d".to_string());
    assert!(matches!(manager.step(Event::Saved), Action::Abort(StageError::OutOfTurn)));
    assert_eq!(manager.phase(), ManagerPhase::Idle);
    manager.step(Event::Begin);
    assert!(matches!(manager.step(Event::Saved), Action::Abort(StageError::OutOfTurn)));
    assert_eq!(manager.phase(), ManagerPhase::Architect);
    assert_eq!(manager.outcome(), None);
    assert!(matches!(
        manager.step(Event::Completed("scope".to_string())),
        Action::DecodeScope(_)
    ));
}

#[test]
fn gateway_failure_in_the_backend_stage_is_reported_with_its_stage() {
    let mut manager = ManagingAgent::new("d".to_string());
    manager.step(Event::Begin);
    manager.step(Event::Completed("scope".to_string()));
    manager.step(Event::ScopeDecoded(Some(todo_scope())));
    manager.step(Event::TemplateRead("t".to_string()));
    let action = manager.step(Event::GatewayFailed);
    assert!(matches!(action, Action::Abort(StageError::Gateway)));
    assert_eq!(
        manager.outcome(),
        Some(Err(FatalError { stage: Stage::Backend, error: StageError::Gateway }))
    );
    assert_eq!(manager.tester().attributes().state, AgentState::Discovery);
    assert_eq!(manager.factsheet().project_scope, Some(todo_scope()));
    assert!(manager.factsheet().backend_code.is_none());
}
