//! The backend developer: has the model write the source of the service
//! and describe its routes.

use vstd::prelude::*;
use crate::agent_traits::{
    routes, texts, Action, ActionView, Event, EventView, FactSheet, FactSheetView, ProjectScope,
    RouteObject,
};
use crate::ai_functions::{task_name, TaskKind};
use crate::basic_agent::{AgentState, BasicAgent, BasicAgentView};
use crate::errors::StageError;
use crate::general::{ai_task_request, task_request};

verus! {

pub const BACKEND_OBJECTIVE: &'static str = "Develops backend code for webserver and json database";

pub const BACKEND_POSITION: &'static str = "Backend Developer";

/// How a decision of the scope is written in a context.
pub open spec fn flag_text(flag: bool) -> Seq<char> {
    if flag {
        "yes"@
    } else {
        "no"@
    }
}

/// A list of addresses as it is written in a context: each address
/// preceded by a blank.
pub open spec fn listed_urls(urls: Seq<Seq<char>>) -> Seq<char>
    decreases urls.len(),
{
    if urls.len() == 0 {
        Seq::empty()
    } else {
        listed_urls(urls.drop_last()) + " "@ + urls.last()
    }
}

/// The context from which the model writes the backend: the code template
/// and what the record holds of the project. A record without a list of
/// addresses reads as one with an empty list.
pub open spec fn backend_context(
    template: Seq<char>,
    description: Seq<char>,
    scope: ProjectScope,
    urls: Option<Seq<Seq<char>>>,
) -> Seq<char> {
    "CODE TEMPLATE: "@ + template + "\nPROJECT_DESCRIPTION: "@ + description
        + "\nPERSISTENT_STORAGE: "@ + flag_text(scope.needs_persistent_storage) + "\nUSER_AUTH: "@
        + flag_text(scope.needs_user_auth) + "\nEXTERNAL_URLS:"@ + listed_urls(
        match urls {
            Some(list) => list,
            None => Seq::empty(),
        },
    )
}

fn write_flag(flag: bool) -> (text: &'static str)
    ensures
        text@ == flag_text(flag),
{
    if flag {
        "yes"
    } else {
        "no"
    }
}

/// Appends a list of addresses to a text, each preceded by a blank.
fn append_urls(text: String, urls: &Vec<String>) -> (extended: String)
    ensures
        extended@ == text@ + listed_urls(texts(urls@)),
{
    let ghost all = texts(urls@);
    let mut extended = text;
    let mut i: usize = 0;
    while i < urls.len()
        invariant
            i <= urls.len(),
            all == texts(urls@),
            extended@ == text@ + listed_urls(all.take(i as int)),
        decreases urls.len() - i,
    {
        assert(all.take(i + 1).drop_last() =~= all.take(i as int));
        extended.append(" ");
        extended.append(urls[i].as_str());
        i += 1;
    }
    assert(all.take(i as int) =~= all);
    extended
}

/// Writes the context from which the model writes the backend.
pub fn write_backend_context(
    template: &str,
    description: &str,
    scope: ProjectScope,
    urls: &Option<Vec<String>>,
) -> (context: String)
    ensures
        context@ == backend_context(
            template@,
            description@,
            scope,
            match urls {
                Some(list) => Some(texts(list@)),
                None => None,
            },
        ),
{
    let head = String::from_str("CODE TEMPLATE: ").concat(template).concat(
        "\nPROJECT_DESCRIPTION: ",
    ).concat(description).concat("\nPERSISTENT_STORAGE: ").concat(
        write_flag(scope.needs_persistent_storage),
    ).concat("\nUSER_AUTH: ").concat(write_flag(scope.needs_user_auth)).concat("\nEXTERNAL_URLS:");
    match urls {
        Some(list) => append_urls(head, list),
        None => {
            head
        },
    }
}

/// What the backend developer is waiting for.
#[derive(Debug, Clone, Copy, PartialEq, Eq, Structural)]
pub enum BackendPhase {
    /// Nothing: the stage has not begun.
    Idle,
    /// The text of the code template.
    ReadingTemplate,
    /// The source that the model writes.
    AwaitingCode,
    /// The source to be written to its place.
    SavingCode,
    /// The model's description of the routes.
    AwaitingSchema,
    /// The description to be written to its place.
    SavingSchema,
    /// The routes, decoded from the description.
    DecodingSchema,
    /// Nothing: the stage has finished.
    Done,
    /// Nothing: the stage has failed.
    Failed,
}

/// The backend developer.
#[derive(Debug)]
pub struct AgentBackendDeveloper {
    attributes: BasicAgent,
    phase: BackendPhase,
    code: String,
    schema_text: String,
}

/// Mathematical model of an [`AgentBackendDeveloper`]. The code and the
/// schema text are what the model has written and the record does not hold
/// yet.
pub struct BackendView {
    pub attributes: BasicAgentView,
    pub phase: BackendPhase,
    pub code: Seq<char>,
    pub schema_text: Seq<char>,
}

impl View for AgentBackendDeveloper {
    type V = BackendView;

    closed spec fn view(&self) -> BackendView {
        BackendView {
            attributes: self.attributes@,
            phase: self.phase,
            code: self.code@,
            schema_text: self.schema_text@,
        }
    }
}

/// The backend developer before it has begun.
pub open spec fn new_backend() -> BackendView {
    BackendView {
        attributes: BasicAgentView {
            objective: BACKEND_OBJECTIVE@,
            position: BACKEND_POSITION@,
            state: AgentState::Discovery,
            memory: Seq::empty(),
        },
        phase: BackendPhase::Idle,
        code: Seq::empty(),
        schema_text: Seq::empty(),
    }
}

/// The lifecycle state that belongs to a phase. A stage that has failed
/// stays in the state in which it failed.
pub open spec fn backend_wf(backend: BackendView) -> bool {
    match backend.phase {
        BackendPhase::Idle => backend.attributes.state == AgentState::Discovery,
        BackendPhase::ReadingTemplate => backend.attributes.state == AgentState::Discovery,
        BackendPhase::Done => backend.attributes.state == AgentState::Finished,
        BackendPhase::Failed => backend.attributes.state == AgentState::Discovery
            || backend.attributes.state == AgentState::Working,
        _ => backend.attributes.state == AgentState::Working,
    }
}

/// The record holds the source and the schema exactly when the backend
/// developer has finished.
pub open spec fn code_follows_backend(backend: BackendView, sheet: FactSheetView) -> bool {
    &&& sheet.backend_code is Some <==> backend.attributes.state == AgentState::Finished
    &&& sheet.api_endpoint_schema is Some <==> backend.attributes.state == AgentState::Finished
}

/// The backend developer in another phase.
pub open spec fn backend_in(backend: BackendView, phase: BackendPhase) -> BackendView {
    BackendView { phase, ..backend }
}

/// The backend developer in another lifecycle state.
pub open spec fn backend_at(backend: BackendView, state: AgentState) -> BackendView {
    BackendView { attributes: BasicAgentView { state, ..backend.attributes }, ..backend }
}

/// The request that puts `task` to the model with `context`.
pub open spec fn backend_request(backend: BackendView, context: Seq<char>, task: TaskKind) -> ActionView {
    ActionView::Complete(
        task_request(context, backend.attributes.position, task_name(task), task),
    )
}

/// How the backend developer goes on when an event is reported to it.
///
/// The stage begins only on a record that holds a scope. It reads the code
/// template and has the model write the source from the template and the
/// record; the source is written to its place. Then the model describes
/// the routes of that source; the description is written to its place and
/// decoded. The source and the routes are written into the record in the
/// step that finishes the stage. An event that is not the one waited for
/// changes nothing.
pub open spec fn backend_step(backend: BackendView, sheet: FactSheetView, event: EventView) -> (
    BackendView,
    FactSheetView,
    ActionView,
) {
    let out_of_turn = (backend, sheet, ActionView::Abort(StageError::OutOfTurn));
    let gateway_failed = (
        backend_in(backend, BackendPhase::Failed),
        sheet,
        ActionView::Abort(StageError::Gateway),
    );
    match backend.phase {
        BackendPhase::Idle => match event {
            EventView::Begin => if sheet.project_scope is Some {
                (backend_in(backend, BackendPhase::ReadingTemplate), sheet, ActionView::ReadTemplate)
            } else {
                out_of_turn
            },
            _ => out_of_turn,
        },
        BackendPhase::ReadingTemplate => match event {
            EventView::TemplateRead(template) => if sheet.project_scope is Some {
                (
                    backend_at(backend_in(backend, BackendPhase::AwaitingCode), AgentState::Working),
                    sheet,
                    backend_request(
                        backend,
                        backend_context(
                            template,
                            sheet.project_description,
                            sheet.project_scope->0,
                            sheet.external_urls,
                        ),
                        TaskKind::PrintBackendWebserverCode,
                    ),
                )
            } else {
                out_of_turn
            },
            _ => out_of_turn,
        },
        BackendPhase::AwaitingCode => match event {
            EventView::Completed(code) => (
                BackendView { phase: BackendPhase::SavingCode, code, ..backend },
                sheet,
                ActionView::SaveBackendCode(code),
            ),
            EventView::GatewayFailed => gateway_failed,
            _ => out_of_turn,
        },
        BackendPhase::SavingCode => match event {
            EventView::Saved => (
                backend_in(backend, BackendPhase::AwaitingSchema),
                sheet,
                backend_request(backend, backend.code, TaskKind::PrintRestApiEndpoints),
            ),
            _ => out_of_turn,
        },
        BackendPhase::AwaitingSchema => match event {
            EventView::Completed(text) => (
                BackendView { phase: BackendPhase::SavingSchema, schema_text: text, ..backend },
                sheet,
                ActionView::SaveApiEndpoints(text),
            ),
            EventView::GatewayFailed => gateway_failed,
            _ => out_of_turn,
        },
        BackendPhase::SavingSchema => match event {
            EventView::Saved => (
                backend_in(backend, BackendPhase::DecodingSchema),
                sheet,
                ActionView::DecodeEndpoints(backend.schema_text),
            ),
            _ => out_of_turn,
        },
        BackendPhase::DecodingSchema => match event {
            EventView::EndpointsDecoded(Some(schema)) => (
                backend_at(backend_in(backend, BackendPhase::Done), AgentState::Finished),
                FactSheetView {
                    backend_code: Some(backend.code),
                    api_endpoint_schema: Some(schema),
                    ..sheet
                },
                ActionView::Finish,
            ),
            EventView::EndpointsDecoded(None) => (
                backend_in(backend, BackendPhase::Failed),
                sheet,
                ActionView::Abort(StageError::Decode),
            ),
            _ => out_of_turn,
        },
        BackendPhase::Done => out_of_turn,
        BackendPhase::Failed => out_of_turn,
    }
}

impl AgentBackendDeveloper {
    /// Well-formedness of the backend developer.
    pub open spec fn wf(&self) -> bool {
        backend_wf(self@)
    }

    /// The backend developer before it has begun.
    pub fn new() -> (backend: AgentBackendDeveloper)
        ensures
            backend.wf(),
            backend@ == new_backend(),
    {
        let attributes = BasicAgent::new(
            BACKEND_OBJECTIVE.to_string(),
            BACKEND_POSITION.to_string(),
        );
        AgentBackendDeveloper {
            attributes,
            phase: BackendPhase::Idle,
            code: String::new(),
            schema_text: String::new(),
        }
    }

    /// What the backend developer carries as an agent.
    pub fn attributes(&self) -> (attributes: &BasicAgent)
        ensures
            attributes@ == self@.attributes,
    {
        &self.attributes
    }

    /// What the backend developer is waiting for.
    pub fn phase(&self) -> (phase: BackendPhase)
        ensures
            phase == self@.phase,
    {
        self.phase
    }

    /// The request that puts `task` to the model with `context`.
    fn request(&self, context: String, task: TaskKind) -> (action: Action)
        ensures
            action@ == backend_request(self@, context@, task),
    {
        Action::Complete(
            ai_task_request(context, self.attributes.get_position(), task.name(), task),
        )
    }

    /// Ends the stage without success.
    fn fail(&mut self, error: StageError) -> (action: Action)
        requires
            old(self).wf(),
            old(self)@.phase != BackendPhase::Done,
        ensures
            final(self).wf(),
            final(self)@ == backend_in(old(self)@, BackendPhase::Failed),
            action@ == ActionView::Abort(error),
    {
        self.phase = BackendPhase::Failed;
        Action::Abort(error)
    }

    /// Has the model write the source.
    fn call_initial_backend_code(&mut self, factsheet: &FactSheet, template: &str) -> (action:
        Action)
        requires
            old(self).wf(),
            old(self)@.phase == BackendPhase::ReadingTemplate,
        ensures
            final(self).wf(),
            (final(self)@, factsheet@, action@) == backend_step(
                old(self)@,
                factsheet@,
                EventView::TemplateRead(template@),
            ),
    {
        match factsheet.project_scope {
            Some(scope) => {
                let context = write_backend_context(
                    template,
                    factsheet.project_description.as_str(),
                    scope,
                    &factsheet.external_urls,
                );
                let action = self.request(context, TaskKind::PrintBackendWebserverCode);
                let moved = self.attributes.update_state(AgentState::Working);
                assert(moved is Ok);
                self.phase = BackendPhase::AwaitingCode;
                action
            },
            None => Action::Abort(StageError::OutOfTurn),
        }
    }

    /// Writes the source and the routes into the record and ends the stage.
    fn finish(&mut self, factsheet: &mut FactSheet, schema: Vec<RouteObject>) -> (action: Action)
        requires
            old(self).wf(),
            old(self)@.phase == BackendPhase::DecodingSchema,
        ensures
            final(self).wf(),
            (final(self)@, final(factsheet)@, action@) == backend_step(
                old(self)@,
                old(factsheet)@,
                EventView::EndpointsDecoded(Some(routes(schema@))),
            ),
    {
        factsheet.backend_code = Some(self.code.clone());
        factsheet.api_endpoint_schema = Some(schema);
        let moved = self.attributes.update_state(AgentState::Finished);
        assert(moved is Ok);
        self.phase = BackendPhase::Done;
        Action::Finish
    }

    /// Reports an event to the backend developer and returns what it asks
    /// for next. Where the record held the source and the schema exactly
    /// when the backend developer had finished, it still does afterwards.
    pub fn step(&mut self, factsheet: &mut FactSheet, event: Event) -> (action: Action)
        requires
            old(self).wf(),
        ensures
            final(self).wf(),
            (final(self)@, final(factsheet)@, action@) == backend_step(
                old(self)@,
                old(factsheet)@,
                event@,
            ),
            code_follows_backend(old(self)@, old(factsheet)@) ==> code_follows_backend(
                final(self)@,
                final(factsheet)@,
            ),
    {
        match self.phase {
            BackendPhase::Idle => match event {
                Event::Begin => {
                    if factsheet.project_scope.is_some() {
                        self.phase = BackendPhase::ReadingTemplate;
                        Action::ReadTemplate
                    } else {
                        Action::Abort(StageError::OutOfTurn)
                    }
                },
                _ => Action::Abort(StageError::OutOfTurn),
            },
            BackendPhase::ReadingTemplate => match event {
                Event::TemplateRead(template) => self.call_initial_backend_code(
                    factsheet,
                    template.as_str(),
                ),
                _ => Action::Abort(StageError::OutOfTurn),
            },
            BackendPhase::AwaitingCode => match event {
                Event::Completed(code) => {
                    self.code = code.clone();
                    self.phase = BackendPhase::SavingCode;
                    Action::SaveBackendCode(code)
                },
                Event::GatewayFailed => self.fail(StageError::Gateway),
                _ => Action::Abort(StageError::OutOfTurn),
            },
            BackendPhase::SavingCode => match event {
                Event::Saved => {
                    let action = self.request(self.code.clone(), TaskKind::PrintRestApiEndpoints);
                    self.phase = BackendPhase::AwaitingSchema;
                    action
                },
                _ => Action::Abort(StageError::OutOfTurn),
            },
            BackendPhase::AwaitingSchema => match event {
                Event::Completed(text) => {
                    self.schema_text = text.clone();
                    self.phase = BackendPhase::SavingSchema;
                    Action::SaveApiEndpoints(text)
                },
                Event::GatewayFailed => self.fail(StageError::Gateway),
                _ => Action::Abort(StageError::OutOfTurn),
            },
            BackendPhase::SavingSchema => match event {
                Event::Saved => {
                    self.phase = BackendPhase::DecodingSchema;
                    Action::DecodeEndpoints(self.schema_text.clone())
                },
                _ => Action::Abort(StageError::OutOfTurn),
            },
            BackendPhase::DecodingSchema => match event {
                Event::EndpointsDecoded(Some(schema)) => self.finish(factsheet, schema),
                Event::EndpointsDecoded(None) => self.fail(StageError::Decode),
                _ => Action::Abort(StageError::OutOfTurn),
            },
            BackendPhase::Done => Action::Abort(StageError::OutOfTurn),
            BackendPhase::Failed => Action::Abort(StageError::OutOfTurn),
        }
    }
}

/// From the backend developer's first step to its last, the record holds
/// the source and the schema exactly when the backend developer has
/// finished.
pub proof fn lemma_code_present_iff_backend_finished(
    backend: BackendView,
    sheet: FactSheetView,
    event: EventView,
)
    requires
        backend_wf(backend),
        code_follows_backend(backend, sheet),
    ensures
        backend_wf(backend_step(backend, sheet, event).0),
        code_follows_backend(
            backend_step(backend, sheet, event).0,
            backend_step(backend, sheet, event).1,
        ),
{
}

} // verus!
