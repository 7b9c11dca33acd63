//! The closed set of tasks an agent can put to the language model, each with
//! the instruction text that tells the model what to print.

use vstd::prelude::*;

verus! {

pub const GOAL_INSTRUCTION: &'static str =
    "fn convert_user_input_to_goal(user_request: &str) -> String. Input: a free-form request for a web service. Output: the request condensed into one sentence that states the goal, starting with the words: build a web service that";

pub const SCOPE_INSTRUCTION: &'static str =
    "fn print_project_scope(project_description: &str) -> String. Input: a project description. Output: a JSON object with exactly three boolean members: needs_persistent_storage, needs_user_auth and needs_external_urls";

pub const SITE_URLS_INSTRUCTION: &'static str =
    "fn print_site_urls(project_description: &str) -> String. Input: a project description. Output: a JSON array of strings, each the URL of a public endpoint that the service should fetch its data from";

pub const BACKEND_CODE_INSTRUCTION: &'static str =
    "fn print_backend_webserver_code(code_template_and_project: &str) -> String. Input: a code template and a project description with its scope. Output: the complete source text of a backend server that fulfils the description, and nothing but the source text";

pub const FIXED_CODE_INSTRUCTION: &'static str =
    "fn print_fixed_code(broken_code_with_bugs: &str) -> String. Input: source text and the diagnostic that it produced. Output: the complete corrected source text, and nothing but the source text";

pub const REST_API_ENDPOINTS_INSTRUCTION: &'static str =
    "fn print_rest_api_endpoints(code_input: &str) -> String. Input: the source text of a backend server. Output: a JSON array with one object for each route, each with three string members: path, method and description";

/// What an agent can ask of the language model.
#[derive(Debug, Clone, Copy, PartialEq, Eq, Structural)]
pub enum TaskKind {
    ConvertUserInputToGoal,
    PrintProjectScope,
    PrintSiteUrls,
    PrintBackendWebserverCode,
    PrintFixedCode,
    PrintRestApiEndpoints,
}

/// The instruction text of each task.
pub open spec fn instruction_text(task: TaskKind) -> Seq<char> {
    match task {
        TaskKind::ConvertUserInputToGoal => GOAL_INSTRUCTION@,
        TaskKind::PrintProjectScope => SCOPE_INSTRUCTION@,
        TaskKind::PrintSiteUrls => SITE_URLS_INSTRUCTION@,
        TaskKind::PrintBackendWebserverCode => BACKEND_CODE_INSTRUCTION@,
        TaskKind::PrintFixedCode => FIXED_CODE_INSTRUCTION@,
        TaskKind::PrintRestApiEndpoints => REST_API_ENDPOINTS_INSTRUCTION@,
    }
}

/// The name under which each task is announced.
pub open spec fn task_name(task: TaskKind) -> Seq<char> {
    match task {
        TaskKind::ConvertUserInputToGoal => "convert_user_input_to_goal"@,
        TaskKind::PrintProjectScope => "print_project_scope"@,
        TaskKind::PrintSiteUrls => "print_site_urls"@,
        TaskKind::PrintBackendWebserverCode => "print_backend_webserver_code"@,
        TaskKind::PrintFixedCode => "print_fixed_code"@,
        TaskKind::PrintRestApiEndpoints => "print_rest_api_endpoints"@,
    }
}

pub fn convert_user_input_to_goal(_user_request: &str) -> (text: &'static str)
    ensures
        text@ == instruction_text(TaskKind::ConvertUserInputToGoal),
{
    GOAL_INSTRUCTION
}

pub fn print_project_scope(_project_description: &str) -> (text: &'static str)
    ensures
        text@ == instruction_text(TaskKind::PrintProjectScope),
{
    SCOPE_INSTRUCTION
}

pub fn print_site_urls(_project_description: &str) -> (text: &'static str)
    ensures
        text@ == instruction_text(TaskKind::PrintSiteUrls),
{
    SITE_URLS_INSTRUCTION
}

pub fn print_backend_webserver_code(_code_template_and_project: &str) -> (text: &'static str)
    ensures
        text@ == instruction_text(TaskKind::PrintBackendWebserverCode),
{
    BACKEND_CODE_INSTRUCTION
}

pub fn print_fixed_code(_broken_code_with_bugs: &str) -> (text: &'static str)
    ensures
        text@ == instruction_text(TaskKind::PrintFixedCode),
{
    FIXED_CODE_INSTRUCTION
}

pub fn print_rest_api_endpoints(_code_input: &str) -> (text: &'static str)
    ensures
        text@ == instruction_text(TaskKind::PrintRestApiEndpoints),
{
    REST_API_ENDPOINTS_INSTRUCTION
}

impl TaskKind {
    /// The instruction text of the kind.
    pub fn instruction(&self) -> (text: &'static str)
        ensures
            text@ == instruction_text(*self),
    {
        match self {
            TaskKind::ConvertUserInputToGoal => convert_user_input_to_goal(""),
            TaskKind::PrintProjectScope => print_project_scope(""),
            TaskKind::PrintSiteUrls => print_site_urls(""),
            TaskKind::PrintBackendWebserverCode => print_backend_webserver_code(""),
            TaskKind::PrintFixedCode => print_fixed_code(""),
            TaskKind::PrintRestApiEndpoints => print_rest_api_endpoints(""),
        }
    }

    /// The name under which the kind is announced.
    pub fn name(&self) -> (name: &'static str)
        ensures
            name@ == task_name(*self),
    {
        match self {
            TaskKind::ConvertUserInputToGoal => "convert_user_input_to_goal",
            TaskKind::PrintProjectScope => "print_project_scope",
            TaskKind::PrintSiteUrls => "print_site_urls",
            TaskKind::PrintBackendWebserverCode => "print_backend_webserver_code",
            TaskKind::PrintFixedCode => "print_fixed_code",
            TaskKind::PrintRestApiEndpoints => "print_rest_api_endpoints",
        }
    }
}

} // verus!
