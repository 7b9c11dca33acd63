//! The solutions architect: decides the scope of the project and, where the
//! project needs outside data, which addresses it can rely on.

use vstd::prelude::*;
use crate::agent_traits::{
    duplicate_texts, texts, Action, ActionView, Event, EventView, FactSheet, FactSheetView, ProbeOutcome,
    ProjectScope,
};
use crate::ai_functions::{task_name, TaskKind};
use crate::basic_agent::{AgentState, BasicAgent, BasicAgentView};
use crate::errors::StageError;
use crate::general::{ai_task_request, task_request};
use crate::urls::{
    decode_site_urls, dedup_urls, distinct_texts, json_string_list, retain_valid_urls,
    retained_urls,
};

verus! {

pub const ARCHITECT_OBJECTIVE: &'static str =
    "Gathers information and design solutions for website development";

pub const ARCHITECT_POSITION: &'static str = "Solutions Architect";

/// What the architect is waiting for.
#[derive(Debug, Clone, Copy, PartialEq, Eq, Structural)]
pub enum ArchitectPhase {
    /// Nothing: the stage has not begun.
    Idle,
    /// The model's reply to the question of scope.
    AwaitingScope,
    /// The scope, decoded from that reply.
    DecodingScope,
    /// The model's proposal of addresses.
    AwaitingUrls,
    /// The outcomes of the probes of the candidates.
    Probing,
    /// Nothing: the stage has finished.
    Done,
    /// Nothing: the stage has failed.
    Failed,
}

/// The solutions architect.
#[derive(Debug)]
pub struct AgentSolutionArchitect {
    attributes: BasicAgent,
    phase: ArchitectPhase,
    scope: Option<ProjectScope>,
    candidates: Vec<String>,
}

/// Mathematical model of an [`AgentSolutionArchitect`]. The scope and the
/// candidates are what the architect has learnt and not yet written into
/// the record.
pub struct ArchitectView {
    pub attributes: BasicAgentView,
    pub phase: ArchitectPhase,
    pub scope: Option<ProjectScope>,
    pub candidates: Seq<Seq<char>>,
}

impl View for AgentSolutionArchitect {
    type V = ArchitectView;

    closed spec fn view(&self) -> ArchitectView {
        ArchitectView {
            attributes: self.attributes@,
            phase: self.phase,
            scope: self.scope,
            candidates: texts(self.candidates@),
        }
    }
}

/// The architect before it has begun.
pub open spec fn new_architect() -> ArchitectView {
    ArchitectView {
        attributes: BasicAgentView {
            objective: ARCHITECT_OBJECTIVE@,
            position: ARCHITECT_POSITION@,
            state: AgentState::Discovery,
            memory: Seq::empty(),
        },
        phase: ArchitectPhase::Idle,
        scope: None,
        candidates: Seq::empty(),
    }
}

/// Well-formedness: the lifecycle state follows the phase, and the scope is
/// known from the moment addresses are asked for.
pub open spec fn architect_wf(architect: ArchitectView) -> bool {
    &&& architect.phase == ArchitectPhase::Done ==> architect.attributes.state
        == AgentState::Finished
    &&& architect.phase != ArchitectPhase::Done ==> architect.attributes.state
        == AgentState::Discovery
    &&& architect.phase == ArchitectPhase::AwaitingUrls || architect.phase
        == ArchitectPhase::Probing ==> architect.scope is Some
}

/// The record holds a scope exactly when the architect has finished.
pub open spec fn scope_follows_architect(architect: ArchitectView, sheet: FactSheetView) -> bool {
    sheet.project_scope is Some <==> architect.attributes.state == AgentState::Finished
}

/// The architect that has failed.
pub open spec fn architect_failed(architect: ArchitectView) -> ArchitectView {
    ArchitectView { phase: ArchitectPhase::Failed, ..architect }
}

/// The architect that has finished.
pub open spec fn architect_done(architect: ArchitectView) -> ArchitectView {
    ArchitectView {
        attributes: BasicAgentView { state: AgentState::Finished, ..architect.attributes },
        phase: ArchitectPhase::Done,
        ..architect
    }
}

/// The request that puts `task` to the model with the project description.
pub open spec fn architect_request(
    architect: ArchitectView,
    sheet: FactSheetView,
    task: TaskKind,
) -> ActionView {
    ActionView::Complete(
        task_request(
            sheet.project_description,
            architect.attributes.position,
            task_name(task),
            task,
        ),
    )
}

/// What the architect makes of a scope: where the project needs no outside
/// data the stage ends and the scope is written into the record; otherwise
/// the scope is kept back and the model is asked for addresses.
pub open spec fn architect_on_scope(
    architect: ArchitectView,
    sheet: FactSheetView,
    scope: ProjectScope,
) -> (ArchitectView, FactSheetView, ActionView) {
    if scope.needs_external_urls {
        (
            ArchitectView {
                phase: ArchitectPhase::AwaitingUrls,
                scope: Some(scope),
                ..architect
            },
            sheet,
            architect_request(architect, sheet, TaskKind::PrintSiteUrls),
        )
    } else {
        (
            architect_done(ArchitectView { scope: Some(scope), ..architect }),
            FactSheetView { project_scope: Some(scope), ..sheet },
            ActionView::Finish,
        )
    }
}

/// What the architect makes of the model's proposal of addresses, decoded:
/// the proposal without its repetitions is what gets probed; a proposal
/// that could not be decoded ends the stage. An architect that is not
/// waiting for a proposal stays as it is.
pub open spec fn architect_on_proposal(
    architect: ArchitectView,
    proposal: Option<Seq<Seq<char>>>,
) -> (ArchitectView, ActionView) {
    if architect.phase != ArchitectPhase::AwaitingUrls {
        (architect, ActionView::Abort(StageError::OutOfTurn))
    } else {
        match proposal {
            Some(list) => (
                ArchitectView {
                    phase: ArchitectPhase::Probing,
                    candidates: distinct_texts(list),
                    ..architect
                },
                ActionView::ProbeUrls(distinct_texts(list)),
            ),
            None => (architect_failed(architect), ActionView::Abort(StageError::Decode)),
        }
    }
}

/// How the architect goes on when an event is reported to it.
///
/// The scope is asked of the model and decoded. Where it calls for outside
/// data, the model proposes addresses; each distinct one is probed and
/// those that answered with success are kept, in the order proposed. The
/// scope, and the addresses where they were asked for, are written into the
/// record in the step that finishes the stage. An event that is not the one
/// waited for changes nothing.
pub open spec fn architect_step(architect: ArchitectView, sheet: FactSheetView, event: EventView) -> (
    ArchitectView,
    FactSheetView,
    ActionView,
) {
    let out_of_turn = (architect, sheet, ActionView::Abort(StageError::OutOfTurn));
    match architect.phase {
        ArchitectPhase::Idle => match event {
            EventView::Begin => (
                ArchitectView { phase: ArchitectPhase::AwaitingScope, ..architect },
                sheet,
                architect_request(architect, sheet, TaskKind::PrintProjectScope),
            ),
            _ => out_of_turn,
        },
        ArchitectPhase::AwaitingScope => match event {
            EventView::Completed(text) => (
                ArchitectView { phase: ArchitectPhase::DecodingScope, ..architect },
                sheet,
                ActionView::DecodeScope(text),
            ),
            EventView::GatewayFailed => (
                architect_failed(architect),
                sheet,
                ActionView::Abort(StageError::Gateway),
            ),
            _ => out_of_turn,
        },
        ArchitectPhase::DecodingScope => match event {
            EventView::ScopeDecoded(Some(scope)) => architect_on_scope(architect, sheet, scope),
            EventView::ScopeDecoded(None) => (
                architect_failed(architect),
                sheet,
                ActionView::Abort(StageError::Decode),
            ),
            _ => out_of_turn,
        },
        ArchitectPhase::AwaitingUrls => match event {
            EventView::Completed(text) => {
                let (next, action) = architect_on_proposal(architect, json_string_list(text));
                (next, sheet, action)
            },
            EventView::GatewayFailed => (
                architect_failed(architect),
                sheet,
                ActionView::Abort(StageError::Gateway),
            ),
            _ => out_of_turn,
        },
        ArchitectPhase::Probing => match event {
            EventView::Probed(outcomes) => if outcomes.len() == architect.candidates.len() {
                (
                    architect_done(architect),
                    FactSheetView {
                        project_scope: architect.scope,
                        external_urls: Some(retained_urls(architect.candidates, outcomes)),
                        ..sheet
                    },
                    ActionView::Finish,
                )
            } else {
                out_of_turn
            },
            _ => out_of_turn,
        },
        ArchitectPhase::Done => out_of_turn,
        ArchitectPhase::Failed => out_of_turn,
    }
}

impl AgentSolutionArchitect {
    /// Well-formedness of the architect.
    pub open spec fn wf(&self) -> bool {
        architect_wf(self@)
    }

    /// The architect before it has begun.
    pub fn new() -> (architect: AgentSolutionArchitect)
        ensures
            architect.wf(),
            architect@ == new_architect(),
    {
        let attributes = BasicAgent::new(
            ARCHITECT_OBJECTIVE.to_string(),
            ARCHITECT_POSITION.to_string(),
        );
        let architect = AgentSolutionArchitect {
            attributes,
            phase: ArchitectPhase::Idle,
            scope: None,
            candidates: Vec::new(),
        };
        assert(texts(architect.candidates@) =~= Seq::empty());
        architect
    }

    /// What the architect carries as an agent.
    pub fn attributes(&self) -> (attributes: &BasicAgent)
        ensures
            attributes@ == self@.attributes,
    {
        &self.attributes
    }

    /// What the architect is waiting for.
    pub fn phase(&self) -> (phase: ArchitectPhase)
        ensures
            phase == self@.phase,
    {
        self.phase
    }

    /// The request that puts `task` to the model with the project
    /// description.
    fn request(&self, factsheet: &FactSheet, task: TaskKind) -> (action: Action)
        ensures
            action@ == architect_request(self@, factsheet@, task),
    {
        Action::Complete(
            ai_task_request(
                factsheet.project_description.clone(),
                self.attributes.get_position(),
                task.name(),
                task,
            ),
        )
    }

    /// Ends the stage without success.
    fn fail(&mut self, error: StageError) -> (action: Action)
        requires
            old(self).wf(),
            old(self)@.phase != ArchitectPhase::Done,
        ensures
            final(self).wf(),
            final(self)@ == architect_failed(old(self)@),
            action@ == ActionView::Abort(error),
    {
        self.phase = ArchitectPhase::Failed;
        Action::Abort(error)
    }

    /// Ends the stage with success.
    fn finish(&mut self) -> (action: Action)
        requires
            old(self).wf(),
            old(self)@.phase != ArchitectPhase::Done,
        ensures
            final(self).wf(),
            final(self)@ == architect_done(old(self)@),
            action@ == ActionView::Finish,
    {
        let moved = self.attributes.update_state(AgentState::Finished);
        assert(moved is Ok);
        self.phase = ArchitectPhase::Done;
        Action::Finish
    }

    /// Asks the model for the scope of the project.
    fn call_project_scope(&mut self, factsheet: &FactSheet) -> (action: Action)
        requires
            old(self).wf(),
            old(self)@.phase == ArchitectPhase::Idle,
        ensures
            final(self).wf(),
            final(self)@ == (ArchitectView {
                phase: ArchitectPhase::AwaitingScope,
                ..old(self)@
            }),
            action@ == architect_request(old(self)@, factsheet@, TaskKind::PrintProjectScope),
    {
        let action = self.request(factsheet, TaskKind::PrintProjectScope);
        self.phase = ArchitectPhase::AwaitingScope;
        action
    }

    /// Takes the scope that was decoded from the model's reply.
    fn on_scope(&mut self, factsheet: &mut FactSheet, scope: ProjectScope) -> (action: Action)
        requires
            old(self).wf(),
            old(self)@.phase == ArchitectPhase::DecodingScope,
        ensures
            final(self).wf(),
            (final(self)@, final(factsheet)@, action@) == architect_on_scope(
                old(self)@,
                old(factsheet)@,
                scope,
            ),
    {
        self.scope = Some(scope);
        if scope.needs_external_urls {
            let action = self.request(factsheet, TaskKind::PrintSiteUrls);
            self.phase = ArchitectPhase::AwaitingUrls;
            action
        } else {
            factsheet.project_scope = Some(scope);
            self.finish()
        }
    }

    /// Takes the model's proposal of addresses, as it was decoded.
    pub fn on_proposal(&mut self, proposal: Result<Vec<String>, StageError>) -> (action: Action)
        requires
            old(self).wf(),
        ensures
            final(self).wf(),
            (final(self)@, action@) == architect_on_proposal(
                old(self)@,
                match proposal {
                    Ok(list) => Some(texts(list@)),
                    Err(_) => None,
                },
            ),
    {
        match self.phase {
            ArchitectPhase::AwaitingUrls => match proposal {
                Ok(list) => {
                    let distinct = dedup_urls(&list);
                    let asked = duplicate_texts(&distinct);
                    self.candidates = distinct;
                    self.phase = ArchitectPhase::Probing;
                    Action::ProbeUrls(asked)
                },
                Err(_) => self.fail(StageError::Decode),
            },
            _ => Action::Abort(StageError::OutOfTurn),
        }
    }

    /// Takes the outcomes of the probes, one for each candidate.
    fn on_probes(&mut self, factsheet: &mut FactSheet, outcomes: &Vec<ProbeOutcome>) -> (action:
        Action)
        requires
            old(self).wf(),
            old(self)@.phase == ArchitectPhase::Probing,
            outcomes.len() == old(self)@.candidates.len(),
        ensures
            final(self).wf(),
            final(self)@ == architect_done(old(self)@),
            final(factsheet)@ == (FactSheetView {
                project_scope: old(self)@.scope,
                external_urls: Some(retained_urls(old(self)@.candidates, outcomes@)),
                ..old(factsheet)@
            }),
            action@ == ActionView::Finish,
    {
        let kept = retain_valid_urls(&self.candidates, outcomes);
        factsheet.project_scope = self.scope;
        factsheet.external_urls = Some(kept);
        self.finish()
    }

    /// Reports an event to the architect and returns what it asks for next.
    /// Where the record held a scope exactly when the architect had
    /// finished, it still does afterwards.
    pub fn step(&mut self, factsheet: &mut FactSheet, event: Event) -> (action: Action)
        requires
            old(self).wf(),
        ensures
            final(self).wf(),
            (final(self)@, final(factsheet)@, action@) == architect_step(
                old(self)@,
                old(factsheet)@,
                event@,
            ),
            scope_follows_architect(old(self)@, old(factsheet)@) ==> scope_follows_architect(
                final(self)@,
                final(factsheet)@,
            ),
    {
        match self.phase {
            ArchitectPhase::Idle => match event {
                Event::Begin => self.call_project_scope(factsheet),
                _ => Action::Abort(StageError::OutOfTurn),
            },
            ArchitectPhase::AwaitingScope => match event {
                Event::Completed(text) => {
                    self.phase = ArchitectPhase::DecodingScope;
                    Action::DecodeScope(text)
                },
                Event::GatewayFailed => self.fail(StageError::Gateway),
                _ => Action::Abort(StageError::OutOfTurn),
            },
            ArchitectPhase::DecodingScope => match event {
                Event::ScopeDecoded(Some(scope)) => self.on_scope(factsheet, scope),
                Event::ScopeDecoded(None) => self.fail(StageError::Decode),
                _ => Action::Abort(StageError::OutOfTurn),
            },
            ArchitectPhase::AwaitingUrls => match event {
                Event::Completed(text) => self.on_proposal(decode_site_urls(text.as_str())),
                Event::GatewayFailed => self.fail(StageError::Gateway),
                _ => Action::Abort(StageError::OutOfTurn),
            },
            ArchitectPhase::Probing => match event {
                Event::Probed(outcomes) => {
                    if outcomes.len() == self.candidates.len() {
                        self.on_probes(factsheet, &outcomes)
                    } else {
                        Action::Abort(StageError::OutOfTurn)
                    }
                },
                _ => Action::Abort(StageError::OutOfTurn),
            },
            ArchitectPhase::Done => Action::Abort(StageError::OutOfTurn),
            ArchitectPhase::Failed => Action::Abort(StageError::OutOfTurn),
        }
    }
}

/// From the architect's first step to its last, the record holds a scope
/// exactly when the architect has finished.
pub proof fn lemma_scope_present_iff_architect_finished(
    architect: ArchitectView,
    sheet: FactSheetView,
    event: EventView,
)
    requires
        architect_wf(architect),
        scope_follows_architect(architect, sheet),
    ensures
        architect_wf(architect_step(architect, sheet, event).0),
        scope_follows_architect(
            architect_step(architect, sheet, event).0,
            architect_step(architect, sheet, event).1,
        ),
        sheet.project_scope is None && architect_step(architect, sheet, event).1.project_scope
            is Some ==> architect_step(architect, sheet, event).2 == ActionView::Finish,
{
}

} // verus!
