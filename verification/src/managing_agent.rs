//! The managing agent: owns the project record and runs the stages in
//! their order, handing the record to one stage at a time.

use vstd::prelude::*;
use crate::agent_architect::{
    architect_step, architect_wf, new_architect, scope_follows_architect, AgentSolutionArchitect,
    ArchitectPhase, ArchitectView,
};
use crate::agent_backend::{
    backend_step, backend_wf, code_follows_backend, new_backend, AgentBackendDeveloper,
    BackendPhase, BackendView,
};
use crate::agent_traits::{Action, ActionView, Event, EventView, FactSheet, FactSheetView};
use crate::agent_unit_tester::{
    new_tester, tester_step, tester_wf, AgentUnitTester, TesterPhase, TesterView,
    DEFAULT_RETRY_BUDGET,
};
use crate::ai_functions::{task_name, TaskKind};
use crate::basic_agent::{AgentState, BasicAgent, BasicAgentView};
use crate::errors::StageError;
use crate::general::{ai_task_request, task_request, TaskRequest};

verus! {

pub const MANAGER_OBJECTIVE: &'static str =
    "Manage agents who are building an excellent website for the user";

pub const MANAGER_POSITION: &'static str = "Project Manager";

/// The stages of the pipeline, in their order.
#[derive(Debug, Clone, Copy, PartialEq, Eq, Structural)]
pub enum Stage {
    Architect,
    Backend,
    Tester,
}

/// The failure that ended a run: the stage that failed, and why.
#[derive(Debug, Clone, Copy, PartialEq, Eq, Structural)]
pub struct FatalError {
    pub stage: Stage,
    pub error: StageError,
}

/// Where the pipeline stands.
#[derive(Debug, Clone, Copy, PartialEq, Eq, Structural)]
pub enum ManagerPhase {
    /// The run has not begun.
    Idle,
    /// The architect is at work.
    Architect,
    /// The backend developer is at work.
    Backend,
    /// The unit tester is at work.
    Tester,
    /// Every stage has finished.
    Done,
    /// A stage has failed, and the run with it.
    Failed,
}

/// The managing agent.
#[derive(Debug)]
pub struct ManagingAgent {
    attributes: BasicAgent,
    factsheet: FactSheet,
    architect: AgentSolutionArchitect,
    backend: AgentBackendDeveloper,
    tester: AgentUnitTester,
    phase: ManagerPhase,
    failure: Option<FatalError>,
}

/// Mathematical model of a [`ManagingAgent`].
pub struct ManagerView {
    pub attributes: BasicAgentView,
    pub factsheet: FactSheetView,
    pub architect: ArchitectView,
    pub backend: BackendView,
    pub tester: TesterView,
    pub phase: ManagerPhase,
    pub failure: Option<FatalError>,
}

impl View for ManagingAgent {
    type V = ManagerView;

    closed spec fn view(&self) -> ManagerView {
        ManagerView {
            attributes: self.attributes@,
            factsheet: self.factsheet@,
            architect: self.architect@,
            backend: self.backend@,
            tester: self.tester@,
            phase: self.phase,
            failure: self.failure,
        }
    }
}

/// The request that has the model turn what the user asked for into the
/// description of the project.
pub open spec fn goal_request_of(user_request: Seq<char>) -> crate::general::TaskRequestView {
    task_request(
        user_request,
        MANAGER_POSITION@,
        task_name(TaskKind::ConvertUserInputToGoal),
        TaskKind::ConvertUserInputToGoal,
    )
}

/// The managing agent at startup: the record holds the description and
/// nothing else, and no stage has begun.
pub open spec fn new_manager(project_description: Seq<char>, budget: nat) -> ManagerView {
    ManagerView {
        attributes: BasicAgentView {
            objective: MANAGER_OBJECTIVE@,
            position: MANAGER_POSITION@,
            state: AgentState::Discovery,
            memory: Seq::empty(),
        },
        factsheet: FactSheetView {
            project_description,
            project_scope: None,
            external_urls: None,
            backend_code: None,
            api_endpoint_schema: None,
        },
        architect: new_architect(),
        backend: new_backend(),
        tester: new_tester(budget),
        phase: ManagerPhase::Idle,
        failure: None,
    }
}

/// The architect is at work: it has begun and not ended.
pub open spec fn architect_active(architect: ArchitectView) -> bool {
    architect.phase != ArchitectPhase::Idle && architect.phase != ArchitectPhase::Done
        && architect.phase != ArchitectPhase::Failed
}

/// The backend developer is at work: it has begun and not ended.
pub open spec fn backend_active(backend: BackendView) -> bool {
    backend.phase != BackendPhase::Idle && backend.phase != BackendPhase::Done && backend.phase
        != BackendPhase::Failed
}

/// The unit tester is at work: it has begun and not ended.
pub open spec fn tester_active(tester: TesterView) -> bool {
    tester.phase != TesterPhase::Idle && tester.phase != TesterPhase::Done && tester.phase
        != TesterPhase::Failed
}

/// What always holds of the pipeline.
///
/// Each stage is well-formed. The record holds the scope exactly when the
/// architect has finished, and the source and the schema exactly when the
/// backend developer has finished. No stage begins before the one ahead of
/// it has finished, so the unit tester never runs on a record without
/// source and schema. At most one stage is at work, the one that the phase
/// names; once a stage has failed, none is.
pub open spec fn manager_wf(manager: ManagerView) -> bool {
    &&& architect_wf(manager.architect)
    &&& backend_wf(manager.backend)
    &&& tester_wf(manager.tester)
    &&& scope_follows_architect(manager.architect, manager.factsheet)
    &&& code_follows_backend(manager.backend, manager.factsheet)
    &&& manager.backend.phase != BackendPhase::Idle ==> manager.architect.phase
        == ArchitectPhase::Done
    &&& manager.tester.phase != TesterPhase::Idle ==> manager.backend.phase == BackendPhase::Done
    &&& manager.failure is Some <==> manager.phase == ManagerPhase::Failed
    &&& architect_active(manager.architect) <==> manager.phase == ManagerPhase::Architect
    &&& backend_active(manager.backend) <==> manager.phase == ManagerPhase::Backend
    &&& tester_active(manager.tester) <==> manager.phase == ManagerPhase::Tester
    &&& manager.phase == ManagerPhase::Idle ==> manager.architect.phase == ArchitectPhase::Idle
    &&& manager.phase == ManagerPhase::Done <==> manager.tester.phase == TesterPhase::Done
    &&& match manager.phase {
        ManagerPhase::Idle => manager.attributes.state == AgentState::Discovery,
        ManagerPhase::Done => manager.attributes.state == AgentState::Finished,
        _ => manager.attributes.state == AgentState::Working,
    }
}

/// What the manager makes of the action of the stage at work: a failure of
/// the stage ends the run; everything else is handed on as it is.
pub open spec fn manager_relay(manager: ManagerView, stage: Stage, action: ActionView) -> (
    ManagerView,
    ActionView,
) {
    match action {
        ActionView::Abort(error) => if error == StageError::OutOfTurn {
            (manager, action)
        } else {
            (
                ManagerView {
                    phase: ManagerPhase::Failed,
                    failure: Some(FatalError { stage, error }),
                    ..manager
                },
                action,
            )
        },
        _ => (manager, action),
    }
}

/// The manager in another lifecycle state.
pub open spec fn manager_at(manager: ManagerView, state: AgentState) -> ManagerView {
    ManagerView { attributes: BasicAgentView { state, ..manager.attributes }, ..manager }
}

/// How the run goes on when an event is reported.
///
/// The event goes to the stage at work, together with the record. When
/// that stage finishes, the next one begins at once and its first request
/// is what is returned; when the last one finishes, the run has finished.
/// When a stage fails, the run has failed and no further stage begins.
pub open spec fn manager_step(manager: ManagerView, event: EventView) -> (ManagerView, ActionView) {
    let out_of_turn = (manager, ActionView::Abort(StageError::OutOfTurn));
    match manager.phase {
        ManagerPhase::Idle => match event {
            EventView::Begin => {
                let (architect, sheet, action) = architect_step(
                    manager.architect,
                    manager.factsheet,
                    EventView::Begin,
                );
                manager_relay(
                    manager_at(
                        ManagerView {
                            architect,
                            factsheet: sheet,
                            phase: ManagerPhase::Architect,
                            ..manager
                        },
                        AgentState::Working,
                    ),
                    Stage::Architect,
                    action,
                )
            },
            _ => out_of_turn,
        },
        ManagerPhase::Architect => {
            let (architect, sheet, action) = architect_step(
                manager.architect,
                manager.factsheet,
                event,
            );
            let after = ManagerView { architect, factsheet: sheet, ..manager };
            if action == ActionView::Finish {
                let (backend, sheet, first) = backend_step(
                    manager.backend,
                    sheet,
                    EventView::Begin,
                );
                manager_relay(
                    ManagerView {
                        backend,
                        factsheet: sheet,
                        phase: ManagerPhase::Backend,
                        ..after
                    },
                    Stage::Backend,
                    first,
                )
            } else {
                manager_relay(after, Stage::Architect, action)
            }
        },
        ManagerPhase::Backend => {
            let (backend, sheet, action) = backend_step(manager.backend, manager.factsheet, event);
            let after = ManagerView { backend, factsheet: sheet, ..manager };
            if action == ActionView::Finish {
                let (tester, first) = tester_step(manager.tester, sheet, EventView::Begin);
                manager_relay(
                    ManagerView { tester, phase: ManagerPhase::Tester, ..after },
                    Stage::Tester,
                    first,
                )
            } else {
                manager_relay(after, Stage::Backend, action)
            }
        },
        ManagerPhase::Tester => {
            let (tester, action) = tester_step(manager.tester, manager.factsheet, event);
            let after = ManagerView { tester, ..manager };
            if action == ActionView::Finish {
                (
                    manager_at(
                        ManagerView { phase: ManagerPhase::Done, ..after },
                        AgentState::Finished,
                    ),
                    ActionView::Finish,
                )
            } else {
                manager_relay(after, Stage::Tester, action)
            }
        },
        ManagerPhase::Done => out_of_turn,
        ManagerPhase::Failed => out_of_turn,
    }
}

impl ManagingAgent {
    /// Well-formedness of the managing agent.
    pub open spec fn wf(&self) -> bool {
        manager_wf(self@)
    }

    /// Prepares the request that has the model turn what the user asked
    /// for into the description of the project.
    pub fn goal_request(usr_req: &str) -> (request: TaskRequest)
        ensures
            request@ == goal_request_of(usr_req@),
    {
        ai_task_request(
            String::from_str(usr_req),
            MANAGER_POSITION,
            TaskKind::ConvertUserInputToGoal.name(),
            TaskKind::ConvertUserInputToGoal,
        )
    }

    /// The managing agent at startup, with the default retry budget.
    pub fn new(project_description: String) -> (manager: ManagingAgent)
        ensures
            manager.wf(),
            manager@ == new_manager(project_description@, DEFAULT_RETRY_BUDGET as nat),
    {
        ManagingAgent::with_budget(project_description, DEFAULT_RETRY_BUDGET)
    }

    /// The managing agent at startup, with `budget` repairs allowed to the
    /// unit tester.
    pub fn with_budget(project_description: String, budget: u32) -> (manager: ManagingAgent)
        ensures
            manager.wf(),
            manager@ == new_manager(project_description@, budget as nat),
    {
        ManagingAgent {
            attributes: BasicAgent::new(
                MANAGER_OBJECTIVE.to_string(),
                MANAGER_POSITION.to_string(),
            ),
            factsheet: FactSheet::new(project_description),
            architect: AgentSolutionArchitect::new(),
            backend: AgentBackendDeveloper::new(),
            tester: AgentUnitTester::with_budget(budget),
            phase: ManagerPhase::Idle,
            failure: None,
        }
    }

    /// What the manager carries as an agent.
    pub fn attributes(&self) -> (attributes: &BasicAgent)
        ensures
            attributes@ == self@.attributes,
    {
        &self.attributes
    }

    /// The project record.
    pub fn factsheet(&self) -> (factsheet: &FactSheet)
        ensures
            factsheet@ == self@.factsheet,
    {
        &self.factsheet
    }

    /// The architect.
    pub fn architect(&self) -> (architect: &AgentSolutionArchitect)
        ensures
            architect@ == self@.architect,
    {
        &self.architect
    }

    /// The backend developer.
    pub fn backend(&self) -> (backend: &AgentBackendDeveloper)
        ensures
            backend@ == self@.backend,
    {
        &self.backend
    }

    /// The unit tester.
    pub fn tester(&self) -> (tester: &AgentUnitTester)
        ensures
            tester@ == self@.tester,
    {
        &self.tester
    }

    /// Where the pipeline stands.
    pub fn phase(&self) -> (phase: ManagerPhase)
        ensures
            phase == self@.phase,
    {
        self.phase
    }

    /// How the run ended: `None` while it goes on, `Ok` when every stage
    /// has finished, the failure when one has failed.
    pub fn outcome(&self) -> (outcome: Option<Result<(), FatalError>>)
        requires
            self.wf(),
        ensures
            outcome == match self@.phase {
                ManagerPhase::Done => Some(Ok::<(), FatalError>(())),
                ManagerPhase::Failed => Some(Err::<(), FatalError>(self@.failure->0)),
                _ => None,
            },
    {
        match self.phase {
            ManagerPhase::Done => Some(Ok(())),
            ManagerPhase::Failed => match self.failure {
                Some(failure) => Some(Err(failure)),
                None => None,
            },
            _ => None,
        }
    }

    /// Ends the run where the stage at work has failed, and hands the
    /// action on.
    fn relay(&mut self, stage: Stage, action: Action) -> (relayed: Action)
        ensures
            (final(self)@, relayed@) == manager_relay(old(self)@, stage, action@),
    {
        match action {
            Action::Abort(error) => {
                match error {
                    StageError::OutOfTurn => {},
                    _ => {
                        self.phase = ManagerPhase::Failed;
                        self.failure = Some(FatalError { stage, error });
                    },
                }
                Action::Abort(error)
            },
            other => other,
        }
    }

    /// Reports an event to the pipeline and returns what is to be done
    /// next: `Finish` when the run has finished, `Abort` when it has
    /// failed, the request of the stage at work otherwise.
    pub fn step(&mut self, event: Event) -> (action: Action)
        requires
            old(self).wf(),
        ensures
            final(self).wf(),
            (final(self)@, action@) == manager_step(old(self)@, event@),
    {
        proof {
            lemma_pipeline_invariants(self@, event@);
        }
        match self.phase {
            ManagerPhase::Idle => match event {
                Event::Begin => {
                    let action = self.architect.step(&mut self.factsheet, Event::Begin);
                    let moved = self.attributes.update_state(AgentState::Working);
                    assert(moved is Ok);
                    self.phase = ManagerPhase::Architect;
                    self.relay(Stage::Architect, action)
                },
                _ => Action::Abort(StageError::OutOfTurn),
            },
            ManagerPhase::Architect => {
                let action = self.architect.step(&mut self.factsheet, event);
                match action {
                    Action::Finish => {
                        let first = self.backend.step(&mut self.factsheet, Event::Begin);
                        self.phase = ManagerPhase::Backend;
                        self.relay(Stage::Backend, first)
                    },
                    other => self.relay(Stage::Architect, other),
                }
            },
            ManagerPhase::Backend => {
                let action = self.backend.step(&mut self.factsheet, event);
                match action {
                    Action::Finish => {
                        let first = self.tester.step(&self.factsheet, Event::Begin);
                        self.phase = ManagerPhase::Tester;
                        self.relay(Stage::Tester, first)
                    },
                    other => self.relay(Stage::Backend, other),
                }
            },
            ManagerPhase::Tester => {
                let action = self.tester.step(&self.factsheet, event);
                match action {
                    Action::Finish => {
                        let moved = self.attributes.update_state(AgentState::Finished);
                        assert(moved is Ok);
                        self.phase = ManagerPhase::Done;
                        Action::Finish
                    },
                    other => self.relay(Stage::Tester, other),
                }
            },
            ManagerPhase::Done => Action::Abort(StageError::OutOfTurn),
            ManagerPhase::Failed => Action::Abort(StageError::OutOfTurn),
        }
    }
}

/// Whatever is reported to a well-formed pipeline, it stays well-formed:
/// the scope is in the record exactly when the architect has finished, the
/// source and the schema exactly when the backend developer has finished,
/// the stages run in their order, one at a time, and none runs after a
/// failure.
pub proof fn lemma_pipeline_invariants(manager: ManagerView, event: EventView)
    requires
        manager_wf(manager),
    ensures
        manager_wf(manager_step(manager, event).0),
{
}

/// A run that has ended stays as it is: no event makes a stage work again.
pub proof fn lemma_ended_run_stays(manager: ManagerView, event: EventView)
    requires
        manager.phase == ManagerPhase::Done || manager.phase == ManagerPhase::Failed,
    ensures
        manager_step(manager, event) == (manager, ActionView::Abort(StageError::OutOfTurn)),
{
}

/// A whole run of the pipeline: where it stands after a sequence of
/// events.
pub open spec fn manager_run(manager: ManagerView, events: Seq<EventView>) -> ManagerView
    decreases events.len(),
{
    if events.len() == 0 {
        manager
    } else {
        manager_step(manager_run(manager, events.drop_last()), events.last()).0
    }
}

/// From startup on, whatever is reported and however often, the pipeline
/// is well-formed: every state that a run can reach keeps the invariants
/// of the record and the order of the stages.
pub proof fn lemma_invariants_hold_throughout(
    project_description: Seq<char>,
    budget: nat,
    events: Seq<EventView>,
)
    ensures
        manager_wf(manager_run(new_manager(project_description, budget), events)),
    decreases events.len(),
{
    if events.len() > 0 {
        lemma_invariants_hold_throughout(project_description, budget, events.drop_last());
        lemma_pipeline_invariants(
            manager_run(new_manager(project_description, budget), events.drop_last()),
            events.last(),
        );
    }
}

} // verus!
