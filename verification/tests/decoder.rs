use auto_gippity::ai_functions::{
    convert_user_input_to_goal, print_project_scope, TaskKind, GOAL_INSTRUCTION,
    SCOPE_INSTRUCTION,
};
use auto_gippity::command_line::PrintCommand;
use auto_gippity::general::{ai_task_request, extend, extend_ai_functions};

#[test]
fn tests_extending_ai_function() {
    let extended = extend_ai_functions(convert_user_input_to_goal, "input");
    assert_eq!(extended.role, "system".to_string());
}

#[test]
fn tests_ai_task_request() {
    let ai_func_param = "Build a webserver for making stock price api requests".to_string();

    let res = ai_task_request(
        ai_func_param,
        "Managing Agent",
        "Defining user requirements",
        TaskKind::ConvertUserInputToGoal,
    );

    assert_eq!(res.notice.command, PrintCommand::AICall);
    assert_eq!(res.notice.position, "Managing Agent");
    assert_eq!(res.notice.statement, "Defining user requirements");
    assert_eq!(res.messages.len(), 1);
    assert_eq!(res.messages[0].role, "system");
    assert!(res.messages[0]
        .content
        .contains("Build a webserver for making stock price api requests"));
    assert!(res.messages[0].content.contains(GOAL_INSTRUCTION));
}

#[test]
fn extended_content_is_the_framed_instruction_and_input() {
    let extended = extend_ai_functions(print_project_scope, "a shop");
    let expected = format!(
        "FUNCTION: {}\n    INSTRUCTION: You are a function printer. You ONLY print the results of functions. \n    Nothing else. No commentary. Here is the input to the function: {}.\n    Print out what the function will return.",
        SCOPE_INSTRUCTION, "a shop"
    );
    assert_eq!(extended.content, expected);
}

#[test]
fn extend_holds_instruction_and_input_for_every_task() {
    let tasks = vec![
        TaskKind::ConvertUserInputToGoal,
        TaskKind::PrintProjectScope,
        TaskKind::PrintSiteUrls,
        TaskKind::PrintBackendWebserverCode,
        TaskKind::PrintFixedCode,
        TaskKind::PrintRestApiEndpoints,
    ];
    for task in tasks {
        let message = extend(task, "x = {\"weird\": [1, 2]}\n");
        assert_eq!(message.role, "system");
        assert!(message.content.contains(task.instruction()));
        assert!(message.content.contains("x = {\"weird\": [1, 2]}\n"));
    }
}

#[test]
fn extend_with_empty_input_keeps_the_frame() {
    let message = extend(TaskKind::PrintSiteUrls, "");
    assert!(message.content.starts_with("FUNCTION: "));
    assert!(message
        .content
        .ends_with("Here is the input to the function: .\n    Print out what the function will return."));
}

#[test]
fn task_names_are_the_function_names() {
    assert_eq!(TaskKind::ConvertUserInputToGoal.name(), "convert_user_input_to_goal");
    assert_eq!(TaskKind::PrintProjectScope.name(), "print_project_scope");
    assert_eq!(TaskKind::PrintSiteUrls.name(), "print_site_urls");
    assert_eq!(TaskKind::PrintBackendWebserverCode.name(), "print_backend_webserver_code");
    assert_eq!(TaskKind::PrintFixedCode.name(), "print_fixed_code");
    assert_eq!(TaskKind::PrintRestApiEndpoints.name(), "print_rest_api_endpoints");
}

#[test]
fn instruction_does_not_depend_on_the_input() {
    assert_eq!(convert_user_input_to_goal("a"), convert_user_input_to_goal("b"));
    assert_eq!(convert_user_input_to_goal("a"), GOAL_INSTRUCTION);
    assert_ne!(convert_user_input_to_goal("a"), print_project_scope("a"));
}
