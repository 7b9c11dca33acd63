//! The unit tester: builds the generated source, runs it and probes its
//! routes, and has the model repair it while the retry budget lasts.

use vstd::prelude::*;
use crate::agent_traits::{
    duplicate_texts, route_paths, routes, texts, Action, ActionView, Event, EventView, FactSheet,
    FactSheetView, ProbeOutcome, RouteObject,
};
use crate::ai_functions::{task_name, TaskKind};
use crate::basic_agent::{AgentState, BasicAgent, BasicAgentView};
use crate::errors::StageError;
use crate::general::{ai_task_request, task_request};
use crate::llm::{Message, MessageView};
use crate::urls::{first_failed_probe, first_failure, lemma_first_failure};

verus! {

pub const TESTER_OBJECTIVE: &'static str =
    "Builds the backend code, checks its routes and has the code repaired";

pub const TESTER_POSITION: &'static str = "Unit Tester";

/// The number of repairs that a tester is allowed when no other number is
/// given.
pub const DEFAULT_RETRY_BUDGET: u32 = 2;

/// The diagnostic of a smoke test that failed at `path`.
pub open spec fn probe_diagnostic(path: Seq<char>) -> Seq<char> {
    "SMOKE TEST FAILED: no success status from route "@ + path
}

/// The context from which the model repairs the source.
pub open spec fn repair_context(source: Seq<char>, diagnostic: Seq<char>) -> Seq<char> {
    "BROKEN_CODE: "@ + source + "\nERROR_BUGS: "@ + diagnostic
        + "\nTHIS FUNCTION ONLY OUTPUTS CODE. JUST OUTPUT THE CODE."@
}

/// Writes the diagnostic of a smoke test that failed at `path`.
pub fn write_probe_diagnostic(path: &str) -> (diagnostic: String)
    ensures
        diagnostic@ == probe_diagnostic(path@),
{
    String::from_str("SMOKE TEST FAILED: no success status from route ").concat(path)
}

/// Writes the context from which the model repairs the source.
pub fn write_repair_context(source: &str, diagnostic: &str) -> (context: String)
    ensures
        context@ == repair_context(source@, diagnostic@),
{
    String::from_str("BROKEN_CODE: ").concat(source).concat("\nERROR_BUGS: ").concat(
        diagnostic,
    ).concat("\nTHIS FUNCTION ONLY OUTPUTS CODE. JUST OUTPUT THE CODE.")
}

/// The paths of a schema, in its order.
pub fn paths_of(schema: &Vec<RouteObject>) -> (paths: Vec<String>)
    ensures
        texts(paths@) == route_paths(routes(schema@)),
{
    let mut paths: Vec<String> = Vec::new();
    let mut i: usize = 0;
    while i < schema.len()
        invariant
            i <= schema.len(),
            paths.len() == i,
            forall|k: int| 0 <= k < i ==> paths[k]@ == schema[k].path@,
        decreases schema.len() - i,
    {
        paths.push(schema[i].path.clone());
        i += 1;
    }
    paths
}

/// What the unit tester is waiting for.
#[derive(Debug, Clone, Copy, PartialEq, Eq, Structural)]
pub enum TesterPhase {
    /// Nothing: the stage has not begun.
    Idle,
    /// The result of the build.
    Building,
    /// The outcomes of the probes of the routes.
    SmokeTesting,
    /// The corrected source that the model writes.
    AwaitingFix,
    /// The corrected source to be written to its place.
    SavingFix,
    /// Nothing: the stage has finished.
    Done,
    /// Nothing: the stage has failed.
    Failed,
}

/// The unit tester.
#[derive(Debug)]
pub struct AgentUnitTester {
    attributes: BasicAgent,
    phase: TesterPhase,
    budget: u32,
    repairs: u32,
    source: String,
    paths: Vec<String>,
}

/// Mathematical model of an [`AgentUnitTester`]: the retry budget, the
/// number of repairs asked for so far, the source as it stands, and the
/// paths that the smoke test probes.
pub struct TesterView {
    pub attributes: BasicAgentView,
    pub phase: TesterPhase,
    pub budget: nat,
    pub repairs: nat,
    pub source: Seq<char>,
    pub paths: Seq<Seq<char>>,
}

impl View for AgentUnitTester {
    type V = TesterView;

    closed spec fn view(&self) -> TesterView {
        TesterView {
            attributes: self.attributes@,
            phase: self.phase,
            budget: self.budget as nat,
            repairs: self.repairs as nat,
            source: self.source@,
            paths: texts(self.paths@),
        }
    }
}

/// The unit tester before it has begun.
pub open spec fn new_tester(budget: nat) -> TesterView {
    TesterView {
        attributes: BasicAgentView {
            objective: TESTER_OBJECTIVE@,
            position: TESTER_POSITION@,
            state: AgentState::Discovery,
            memory: Seq::empty(),
        },
        phase: TesterPhase::Idle,
        budget,
        repairs: 0,
        source: Seq::empty(),
        paths: Seq::empty(),
    }
}

/// Well-formedness: the budget is never overdrawn, each repair has left
/// two messages in the memory, and the lifecycle state follows the phase.
/// A stage that has failed stays in the state in which it failed.
pub open spec fn tester_wf(tester: TesterView) -> bool {
    &&& tester.repairs <= tester.budget
    &&& tester.attributes.memory.len() == 2 * tester.repairs
    &&& match tester.phase {
        TesterPhase::Idle => tester.attributes.state == AgentState::Discovery,
        TesterPhase::Building => tester.attributes.state == AgentState::UnitTesting,
        TesterPhase::SmokeTesting => tester.attributes.state == AgentState::UnitTesting,
        TesterPhase::AwaitingFix => tester.attributes.state == AgentState::Working,
        TesterPhase::SavingFix => tester.attributes.state == AgentState::Working,
        TesterPhase::Done => tester.attributes.state == AgentState::Finished,
        TesterPhase::Failed => tester.attributes.state != AgentState::Finished,
    }
}

/// The unit tester in another phase.
pub open spec fn tester_in(tester: TesterView, phase: TesterPhase) -> TesterView {
    TesterView { phase, ..tester }
}

/// The unit tester in another lifecycle state.
pub open spec fn tester_at(tester: TesterView, state: AgentState) -> TesterView {
    TesterView { attributes: BasicAgentView { state, ..tester.attributes }, ..tester }
}

/// What the unit tester does about a failure of the build or of the smoke
/// test. While the budget lasts, one unit of it is spent: the source and
/// the diagnostic are added to the memory, and the model is asked for the
/// corrected source. Once the budget is spent, the failure ends the stage.
pub open spec fn tester_on_failure(tester: TesterView, error: StageError, diagnostic: Seq<char>) -> (
    TesterView,
    ActionView,
) {
    if tester.repairs < tester.budget {
        (
            TesterView {
                attributes: BasicAgentView {
                    state: AgentState::Working,
                    memory: tester.attributes.memory.push(
                        MessageView { role: "assistant"@, content: tester.source },
                    ).push(MessageView { role: "user"@, content: diagnostic }),
                    ..tester.attributes
                },
                phase: TesterPhase::AwaitingFix,
                repairs: tester.repairs + 1,
                ..tester
            },
            ActionView::Complete(
                task_request(
                    repair_context(tester.source, diagnostic),
                    tester.attributes.position,
                    task_name(TaskKind::PrintFixedCode),
                    TaskKind::PrintFixedCode,
                ),
            ),
        )
    } else {
        (tester_in(tester, TesterPhase::Failed), ActionView::Abort(error))
    }
}

/// What the unit tester makes of the outcomes of a smoke test, one for
/// each path: the first probe that failed is a failure of the source; where
/// none failed the stage finishes.
pub open spec fn tester_on_probes(tester: TesterView, outcomes: Seq<ProbeOutcome>) -> (
    TesterView,
    ActionView,
) {
    match first_failure(outcomes) {
        Some(at) => tester_on_failure(
            tester,
            StageError::RuntimeProbe,
            probe_diagnostic(tester.paths[at]),
        ),
        None => (
            tester_at(tester_in(tester, TesterPhase::Done), AgentState::Finished),
            ActionView::Finish,
        ),
    }
}

/// How the unit tester goes on when an event is reported to it.
///
/// The stage begins only on a record that holds the source and the schema.
/// It has the source built. A build that succeeds is followed by the smoke
/// test of every route of the schema; a smoke test without a failed probe
/// finishes the stage. A build that fails, and a smoke test with a failed
/// probe, are repaired while the budget lasts: the corrected source is
/// written over the old one and built again. An event that is not the one
/// waited for changes nothing.
pub open spec fn tester_step(tester: TesterView, sheet: FactSheetView, event: EventView) -> (
    TesterView,
    ActionView,
) {
    let out_of_turn = (tester, ActionView::Abort(StageError::OutOfTurn));
    match tester.phase {
        TesterPhase::Idle => match event {
            EventView::Begin => if sheet.backend_code is Some && sheet.api_endpoint_schema
                is Some {
                (
                    TesterView {
                        attributes: BasicAgentView {
                            state: AgentState::UnitTesting,
                            ..tester.attributes
                        },
                        phase: TesterPhase::Building,
                        source: sheet.backend_code->0,
                        paths: route_paths(sheet.api_endpoint_schema->0),
                        ..tester
                    },
                    ActionView::Build,
                )
            } else {
                out_of_turn
            },
            _ => out_of_turn,
        },
        TesterPhase::Building => match event {
            EventView::Built { success, diagnostic } => if success {
                (
                    tester_in(tester, TesterPhase::SmokeTesting),
                    ActionView::SmokeTest(tester.paths),
                )
            } else {
                tester_on_failure(tester, StageError::Compile, diagnostic)
            },
            _ => out_of_turn,
        },
        TesterPhase::SmokeTesting => match event {
            EventView::Probed(outcomes) => if outcomes.len() == tester.paths.len() {
                tester_on_probes(tester, outcomes)
            } else {
                out_of_turn
            },
            _ => out_of_turn,
        },
        TesterPhase::AwaitingFix => match event {
            EventView::Completed(code) => (
                TesterView { phase: TesterPhase::SavingFix, source: code, ..tester },
                ActionView::SaveBackendCode(code),
            ),
            EventView::GatewayFailed => (
                tester_in(tester, TesterPhase::Failed),
                ActionView::Abort(StageError::Gateway),
            ),
            _ => out_of_turn,
        },
        TesterPhase::SavingFix => match event {
            EventView::Saved => (
                tester_at(tester_in(tester, TesterPhase::Building), AgentState::UnitTesting),
                ActionView::Build,
            ),
            _ => out_of_turn,
        },
        TesterPhase::Done => out_of_turn,
        TesterPhase::Failed => out_of_turn,
    }
}

impl AgentUnitTester {
    /// Well-formedness of the unit tester.
    pub open spec fn wf(&self) -> bool {
        tester_wf(self@)
    }

    /// The unit tester before it has begun, with the default retry budget.
    pub fn new() -> (tester: AgentUnitTester)
        ensures
            tester.wf(),
            tester@ == new_tester(DEFAULT_RETRY_BUDGET as nat),
    {
        AgentUnitTester::with_budget(DEFAULT_RETRY_BUDGET)
    }

    /// The unit tester before it has begun, with `budget` repairs allowed.
    pub fn with_budget(budget: u32) -> (tester: AgentUnitTester)
        ensures
            tester.wf(),
            tester@ == new_tester(budget as nat),
    {
        let attributes = BasicAgent::new(
            TESTER_OBJECTIVE.to_string(),
            TESTER_POSITION.to_string(),
        );
        let tester = AgentUnitTester {
            attributes,
            phase: TesterPhase::Idle,
            budget,
            repairs: 0,
            source: String::new(),
            paths: Vec::new(),
        };
        assert(texts(tester.paths@) =~= Seq::empty());
        tester
    }

    /// What the unit tester carries as an agent.
    pub fn attributes(&self) -> (attributes: &BasicAgent)
        ensures
            attributes@ == self@.attributes,
    {
        &self.attributes
    }

    /// What the unit tester is waiting for.
    pub fn phase(&self) -> (phase: TesterPhase)
        ensures
            phase == self@.phase,
    {
        self.phase
    }

    /// The number of repairs that the tester is allowed.
    pub fn budget(&self) -> (budget: u32)
        ensures
            budget == self@.budget,
    {
        self.budget
    }

    /// The number of repairs that the tester has asked for.
    pub fn repairs(&self) -> (repairs: u32)
        ensures
            repairs == self@.repairs,
    {
        self.repairs
    }

    /// The source as it stands.
    pub fn source(&self) -> (source: &str)
        ensures
            source@ == self@.source,
    {
        self.source.as_str()
    }

    /// Takes a failure of the build or of the smoke test.
    fn on_failure(&mut self, error: StageError, diagnostic: String) -> (action: Action)
        requires
            old(self).wf(),
            old(self)@.phase == TesterPhase::Building || old(self)@.phase
                == TesterPhase::SmokeTesting,
        ensures
            final(self).wf(),
            (final(self)@, action@) == tester_on_failure(old(self)@, error, diagnostic@),
    {
        if self.repairs < self.budget {
            let context = write_repair_context(self.source.as_str(), diagnostic.as_str());
            let action = Action::Complete(
                ai_task_request(
                    context,
                    self.attributes.get_position(),
                    TaskKind::PrintFixedCode.name(),
                    TaskKind::PrintFixedCode,
                ),
            );
            self.attributes.append_memory(Message::assistant(self.source.clone()));
            self.attributes.append_memory(Message::user(diagnostic));
            let moved = self.attributes.update_state(AgentState::Working);
            assert(moved is Ok);
            self.repairs = self.repairs + 1;
            self.phase = TesterPhase::AwaitingFix;
            action
        } else {
            self.phase = TesterPhase::Failed;
            Action::Abort(error)
        }
    }

    /// Takes the outcomes of a smoke test, one for each path.
    fn on_probes(&mut self, outcomes: &Vec<ProbeOutcome>) -> (action: Action)
        requires
            old(self).wf(),
            old(self)@.phase == TesterPhase::SmokeTesting,
            outcomes.len() == old(self)@.paths.len(),
        ensures
            final(self).wf(),
            (final(self)@, action@) == tester_on_probes(old(self)@, outcomes@),
    {
        match first_failed_probe(outcomes) {
            Some(at) => {
                proof {
                    lemma_first_failure(outcomes@);
                }
                let diagnostic = write_probe_diagnostic(self.paths[at].as_str());
                self.on_failure(StageError::RuntimeProbe, diagnostic)
            },
            None => {
                let moved = self.attributes.update_state(AgentState::Finished);
                assert(moved is Ok);
                self.phase = TesterPhase::Done;
                Action::Finish
            },
        }
    }

    /// Begins the stage on a record that holds the source and the schema.
    fn begin(&mut self, factsheet: &FactSheet) -> (action: Action)
        requires
            old(self).wf(),
            old(self)@.phase == TesterPhase::Idle,
        ensures
            final(self).wf(),
            (final(self)@, action@) == tester_step(old(self)@, factsheet@, EventView::Begin),
    {
        match &factsheet.backend_code {
            Some(code) => match &factsheet.api_endpoint_schema {
                Some(schema) => {
                    self.source = code.clone();
                    self.paths = paths_of(schema);
                    let moved = self.attributes.update_state(AgentState::UnitTesting);
                    assert(moved is Ok);
                    self.phase = TesterPhase::Building;
                    Action::Build
                },
                None => Action::Abort(StageError::OutOfTurn),
            },
            None => Action::Abort(StageError::OutOfTurn),
        }
    }

    /// Reports an event to the unit tester and returns what it asks for
    /// next. The record is read and never written.
    pub fn step(&mut self, factsheet: &FactSheet, event: Event) -> (action: Action)
        requires
            old(self).wf(),
        ensures
            final(self).wf(),
            (final(self)@, action@) == tester_step(old(self)@, factsheet@, event@),
    {
        match self.phase {
            TesterPhase::Idle => match event {
                Event::Begin => self.begin(factsheet),
                _ => Action::Abort(StageError::OutOfTurn),
            },
            TesterPhase::Building => match event {
                Event::Built { success, diagnostic } => {
                    if success {
                        self.phase = TesterPhase::SmokeTesting;
                        Action::SmokeTest(duplicate_texts(&self.paths))
                    } else {
                        self.on_failure(StageError::Compile, diagnostic)
                    }
                },
                _ => Action::Abort(StageError::OutOfTurn),
            },
            TesterPhase::SmokeTesting => match event {
                Event::Probed(outcomes) => {
                    if outcomes.len() == self.paths.len() {
                        self.on_probes(&outcomes)
                    } else {
                        Action::Abort(StageError::OutOfTurn)
                    }
                },
                _ => Action::Abort(StageError::OutOfTurn),
            },
            TesterPhase::AwaitingFix => match event {
                Event::Completed(code) => {
                    self.source = code.clone();
                    self.phase = TesterPhase::SavingFix;
                    Action::SaveBackendCode(code)
                },
                Event::GatewayFailed => {
                    self.phase = TesterPhase::Failed;
                    Action::Abort(StageError::Gateway)
                },
                _ => Action::Abort(StageError::OutOfTurn),
            },
            TesterPhase::SavingFix => match event {
                Event::Saved => {
                    let moved = self.attributes.update_state(AgentState::UnitTesting);
                    assert(moved is Ok);
                    self.phase = TesterPhase::Building;
                    Action::Build
                },
                _ => Action::Abort(StageError::OutOfTurn),
            },
            TesterPhase::Done => Action::Abort(StageError::OutOfTurn),
            TesterPhase::Failed => Action::Abort(StageError::OutOfTurn),
        }
    }
}

/// The repair loop is bounded by the budget. A step asks the model for a
/// correction exactly when it spends one unit of the budget, and it never
/// spends more than one; a failure of the build or of a probe ends the
/// stage only when the budget is spent; and nothing is ever taken from the
/// memory.
pub proof fn lemma_repairs_are_bounded(tester: TesterView, sheet: FactSheetView, event: EventView)
    requires
        tester_wf(tester),
    ensures
        ({
            let (next, action) = tester_step(tester, sheet, event);
            &&& tester_wf(next)
            &&& next.budget == tester.budget
            &&& next.repairs <= tester.budget
            &&& next.repairs == tester.repairs || next.repairs == tester.repairs + 1
            &&& next.repairs == tester.repairs + 1 <==> action is Complete
            &&& action == ActionView::Abort(StageError::Compile) || action == ActionView::Abort(
                StageError::RuntimeProbe,
            ) ==> tester.repairs == tester.budget
            &&& tester.attributes.memory.is_prefix_of(next.attributes.memory)
        }),
{
}

/// A whole run of the unit tester: where it stands after a sequence of
/// events, and how often it has asked the model for a correction on the
/// way.
pub open spec fn tester_run(tester: TesterView, sheet: FactSheetView, events: Seq<EventView>) -> (
    TesterView,
    nat,
)
    decreases events.len(),
{
    if events.len() == 0 {
        (tester, 0)
    } else {
        let (before, calls) = tester_run(tester, sheet, events.drop_last());
        let (next, action) = tester_step(before, sheet, events.last());
        (
            next,
            if action is Complete {
                calls + 1
            } else {
                calls
            },
        )
    }
}

/// Whatever is reported to the unit tester, and however often, the number
/// of corrections it asks for is the number of units it spends, and that
/// never exceeds what was left of the budget.
pub proof fn lemma_corrective_calls_within_budget(
    tester: TesterView,
    sheet: FactSheetView,
    events: Seq<EventView>,
)
    requires
        tester_wf(tester),
    ensures
        tester_wf(tester_run(tester, sheet, events).0),
        tester_run(tester, sheet, events).0.budget == tester.budget,
        tester_run(tester, sheet, events).0.repairs == tester.repairs + tester_run(
            tester,
            sheet,
            events,
        ).1,
        tester_run(tester, sheet, events).1 <= tester.budget - tester.repairs,
    decreases events.len(),
{
    if events.len() > 0 {
        lemma_corrective_calls_within_budget(tester, sheet, events.drop_last());
        lemma_repairs_are_bounded(
            tester_run(tester, sheet, events.drop_last()).0,
            sheet,
            events.last(),
        );
    }
}

} // verus!
