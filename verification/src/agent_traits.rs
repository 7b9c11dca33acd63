//! The shared project record, and the vocabulary in which a stage and its
//! driver talk: the stage asks for one piece of outside work at a time (an
//! [`Action`]) and is told what came of it (an [`Event`]).

use vstd::prelude::*;
use crate::errors::StageError;
use crate::general::{TaskRequest, TaskRequestView};

verus! {

/// What the architect decides about a project.
#[derive(Debug, Clone, Copy, PartialEq, Eq, Structural)]
pub struct ProjectScope {
    pub needs_persistent_storage: bool,
    pub needs_user_auth: bool,
    pub needs_external_urls: bool,
}

/// One route of the generated service.
#[derive(Debug)]
pub struct RouteObject {
    pub path: String,
    pub method: String,
    pub description: String,
}

/// Mathematical model of a [`RouteObject`].
pub struct RouteObjectView {
    pub path: Seq<char>,
    pub method: Seq<char>,
    pub description: Seq<char>,
}

impl View for RouteObject {
    type V = RouteObjectView;

    open spec fn view(&self) -> RouteObjectView {
        RouteObjectView {
            path: self.path@,
            method: self.method@,
            description: self.description@,
        }
    }
}

/// The texts that a sequence of strings holds.
pub open spec fn texts(strings: Seq<String>) -> Seq<Seq<char>> {
    strings.map_values(|s: String| s@)
}

/// The routes that a sequence of route objects holds.
pub open spec fn routes(objects: Seq<RouteObject>) -> Seq<RouteObjectView> {
    objects.map_values(|r: RouteObject| r@)
}

/// The paths of a schema, in its order.
pub open spec fn route_paths(schema: Seq<RouteObjectView>) -> Seq<Seq<char>> {
    schema.map_values(|r: RouteObjectView| r.path)
}

/// The record that the stages fill in, one after the other.
#[derive(Debug)]
pub struct FactSheet {
    pub project_description: String,
    pub project_scope: Option<ProjectScope>,
    pub external_urls: Option<Vec<String>>,
    pub backend_code: Option<String>,
    pub api_endpoint_schema: Option<Vec<RouteObject>>,
}

/// Mathematical model of a [`FactSheet`].
pub struct FactSheetView {
    pub project_description: Seq<char>,
    pub project_scope: Option<ProjectScope>,
    pub external_urls: Option<Seq<Seq<char>>>,
    pub backend_code: Option<Seq<char>>,
    pub api_endpoint_schema: Option<Seq<RouteObjectView>>,
}

impl View for FactSheet {
    type V = FactSheetView;

    open spec fn view(&self) -> FactSheetView {
        FactSheetView {
            project_description: self.project_description@,
            project_scope: self.project_scope,
            external_urls: match self.external_urls {
                Some(urls) => Some(texts(urls@)),
                None => None,
            },
            backend_code: match self.backend_code {
                Some(code) => Some(code@),
                None => None,
            },
            api_endpoint_schema: match self.api_endpoint_schema {
                Some(schema) => Some(routes(schema@)),
                None => None,
            },
        }
    }
}

impl FactSheet {
    /// The record at startup: the description and nothing else.
    pub fn new(project_description: String) -> (sheet: FactSheet)
        ensures
            sheet@ == (FactSheetView {
                project_description: project_description@,
                project_scope: None,
                external_urls: None,
                backend_code: None,
                api_endpoint_schema: None,
            }),
    {
        FactSheet {
            project_description,
            project_scope: None,
            external_urls: None,
            backend_code: None,
            api_endpoint_schema: None,
        }
    }
}

/// What came of one HTTP probe.
#[derive(Debug, Clone, Copy, PartialEq, Eq, Structural)]
pub enum ProbeOutcome {
    /// The server answered with this status code.
    Status(u16),
    /// No answer came: the probe timed out or the connection failed.
    NoAnswer,
}

/// What the driver reports to a stage.
#[derive(Debug)]
pub enum Event {
    /// The stage is to start.
    Begin,
    /// The gateway returned this text.
    Completed(String),
    /// The gateway gave up.
    GatewayFailed,
    /// The text was decoded as a project scope, or could not be.
    ScopeDecoded(Option<ProjectScope>),
    /// The text was decoded as an endpoint schema, or could not be.
    EndpointsDecoded(Option<Vec<RouteObject>>),
    /// The code template holds this text.
    TemplateRead(String),
    /// The artifact was written.
    Saved,
    /// The build ended, with this diagnostic.
    Built { success: bool, diagnostic: String },
    /// The probes ended: one outcome for each address asked for, in order.
    Probed(Vec<ProbeOutcome>),
}

/// Mathematical model of an [`Event`].
pub enum EventView {
    Begin,
    Completed(Seq<char>),
    GatewayFailed,
    ScopeDecoded(Option<ProjectScope>),
    EndpointsDecoded(Option<Seq<RouteObjectView>>),
    TemplateRead(Seq<char>),
    Saved,
    Built { success: bool, diagnostic: Seq<char> },
    Probed(Seq<ProbeOutcome>),
}

impl View for Event {
    type V = EventView;

    open spec fn view(&self) -> EventView {
        match self {
            Event::Begin => EventView::Begin,
            Event::Completed(text) => EventView::Completed(text@),
            Event::GatewayFailed => EventView::GatewayFailed,
            Event::ScopeDecoded(scope) => EventView::ScopeDecoded(*scope),
            Event::EndpointsDecoded(Some(schema)) => EventView::EndpointsDecoded(
                Some(routes(schema@)),
            ),
            Event::EndpointsDecoded(None) => EventView::EndpointsDecoded(None),
            Event::TemplateRead(text) => EventView::TemplateRead(text@),
            Event::Saved => EventView::Saved,
            Event::Built { success, diagnostic } => EventView::Built {
                success: *success,
                diagnostic: diagnostic@,
            },
            Event::Probed(outcomes) => EventView::Probed(outcomes@),
        }
    }
}

/// What a stage asks of its driver.
#[derive(Debug)]
pub enum Action {
    /// Show the notice and put the conversation to the gateway.
    Complete(TaskRequest),
    /// Decode the text as a project scope.
    DecodeScope(String),
    /// Decode the text as an endpoint schema.
    DecodeEndpoints(String),
    /// Read the code template.
    ReadTemplate,
    /// Write the text where the backend source is kept.
    SaveBackendCode(String),
    /// Write the text where the endpoint schema is kept.
    SaveApiEndpoints(String),
    /// Build the backend source that was last written.
    Build,
    /// Probe each of these addresses.
    ProbeUrls(Vec<String>),
    /// Start the service that was built, probe each of these routes of it,
    /// and stop it.
    SmokeTest(Vec<String>),
    /// Nothing more: the stage has finished.
    Finish,
    /// Nothing more: the stage has failed.
    Abort(StageError),
}

/// Mathematical model of an [`Action`].
pub enum ActionView {
    Complete(TaskRequestView),
    DecodeScope(Seq<char>),
    DecodeEndpoints(Seq<char>),
    ReadTemplate,
    SaveBackendCode(Seq<char>),
    SaveApiEndpoints(Seq<char>),
    Build,
    ProbeUrls(Seq<Seq<char>>),
    SmokeTest(Seq<Seq<char>>),
    Finish,
    Abort(StageError),
}

impl View for Action {
    type V = ActionView;

    open spec fn view(&self) -> ActionView {
        match self {
            Action::Complete(request) => ActionView::Complete(request@),
            Action::DecodeScope(text) => ActionView::DecodeScope(text@),
            Action::DecodeEndpoints(text) => ActionView::DecodeEndpoints(text@),
            Action::ReadTemplate => ActionView::ReadTemplate,
            Action::SaveBackendCode(text) => ActionView::SaveBackendCode(text@),
            Action::SaveApiEndpoints(text) => ActionView::SaveApiEndpoints(text@),
            Action::Build => ActionView::Build,
            Action::ProbeUrls(urls) => ActionView::ProbeUrls(texts(urls@)),
            Action::SmokeTest(paths) => ActionView::SmokeTest(texts(paths@)),
            Action::Finish => ActionView::Finish,
            Action::Abort(error) => ActionView::Abort(*error),
        }
    }
}

/// A copy of a list of strings that holds the same texts.
pub fn duplicate_texts(strings: &Vec<String>) -> (copy: Vec<String>)
    ensures
        texts(copy@) == texts(strings@),
{
    let mut copy: Vec<String> = Vec::new();
    let mut i: usize = 0;
    while i < strings.len()
        invariant
            i <= strings.len(),
            copy.len() == i,
            forall|k: int| 0 <= k < i ==> copy[k]@ == strings[k]@,
        decreases strings.len() - i,
    {
        copy.push(strings[i].clone());
        i += 1;
    }
    copy
}

} // verus!
