//! Lifecycle state and conversation memory shared by every agent.

use vstd::prelude::*;
use crate::llm::{conversation, Message, MessageView};

verus! {

/// Where an agent stands in its lifecycle.
#[derive(Debug, Clone, Copy, PartialEq, Eq, Structural)]
pub enum AgentState {
    Discovery,
    Working,
    UnitTesting,
    Finished,
}

/// The refusal of a state change that the transition table does not hold.
#[derive(Debug, Clone, Copy, PartialEq, Eq, Structural)]
pub struct IllegalTransition {
    pub from: AgentState,
    pub to: AgentState,
}

/// Position of a state in the forward order of the lifecycle.
pub open spec fn rank(state: AgentState) -> nat {
    match state {
        AgentState::Discovery => 0,
        AgentState::Working => 1,
        AgentState::UnitTesting => 2,
        AgentState::Finished => 3,
    }
}

/// The transition table. An agent moves forward in the order Discovery,
/// Working, UnitTesting, Finished (stages may skip states they have no use
/// for); the repair loop alone moves otherwise: it may stay in Working and
/// may fall back from UnitTesting to Working. Nothing leaves Finished.
pub open spec fn legal_transition(from: AgentState, to: AgentState) -> bool {
    ||| rank(from) < rank(to)
    ||| from == AgentState::Working && to == AgentState::Working
    ||| from == AgentState::UnitTesting && to == AgentState::Working
}

/// Executable form of [`legal_transition`].
pub fn is_legal_transition(from: AgentState, to: AgentState) -> (legal: bool)
    ensures
        legal == legal_transition(from, to),
{
    match (from, to) {
        (AgentState::Discovery, AgentState::Discovery) => false,
        (AgentState::Discovery, _) => true,
        (AgentState::Working, AgentState::Discovery) => false,
        (AgentState::Working, _) => true,
        (AgentState::UnitTesting, AgentState::Working) => true,
        (AgentState::UnitTesting, AgentState::Finished) => true,
        (AgentState::UnitTesting, _) => false,
        (AgentState::Finished, _) => false,
    }
}

/// What every agent carries: its purpose, its label, its lifecycle state and
/// the conversation it has accumulated.
#[derive(Debug)]
pub struct BasicAgent {
    pub objective: String,
    pub position: String,
    pub state: AgentState,
    pub memory: Vec<Message>,
}

/// Mathematical model of a [`BasicAgent`].
pub struct BasicAgentView {
    pub objective: Seq<char>,
    pub position: Seq<char>,
    pub state: AgentState,
    pub memory: Seq<MessageView>,
}

impl View for BasicAgent {
    type V = BasicAgentView;

    open spec fn view(&self) -> BasicAgentView {
        BasicAgentView {
            objective: self.objective@,
            position: self.position@,
            state: self.state,
            memory: conversation(self.memory@),
        }
    }
}

impl BasicAgent {
    /// A fresh agent: in Discovery, with nothing remembered.
    pub fn new(objective: String, position: String) -> (agent: BasicAgent)
        ensures
            agent@ == (BasicAgentView {
                objective: objective@,
                position: position@,
                state: AgentState::Discovery,
                memory: Seq::empty(),
            }),
    {
        let agent = BasicAgent {
            objective,
            position,
            state: AgentState::Discovery,
            memory: Vec::new(),
        };
        assert(conversation(agent.memory@) =~= Seq::empty());
        agent
    }

    /// Moves the agent to `new_state` if the transition table allows it, and
    /// leaves the agent untouched otherwise.
    pub fn update_state(&mut self, new_state: AgentState) -> (outcome: Result<(), IllegalTransition>)
        ensures
            legal_transition(old(self).state, new_state) ==> outcome is Ok && final(self)@ == (
            BasicAgentView { state: new_state, ..old(self)@ }),
            !legal_transition(old(self).state, new_state) ==> *final(self) == *old(self) && outcome
                == Err::<(), IllegalTransition>(
                IllegalTransition { from: old(self).state, to: new_state },
            ),
    {
        if is_legal_transition(self.state, new_state) {
            self.state = new_state;
            Ok(())
        } else {
            Err(IllegalTransition { from: self.state, to: new_state })
        }
    }

    /// Adds one message at the end of the memory. Nothing already remembered
    /// changes.
    pub fn append_memory(&mut self, message: Message)
        ensures
            final(self)@ == (BasicAgentView {
                memory: old(self)@.memory.push(message@),
                ..old(self)@
            }),
    {
        self.memory.push(message);
        assert(conversation(self.memory@) =~= conversation(old(self).memory@).push(message@));
    }

    pub fn get_memory(&self) -> (memory: &Vec<Message>)
        ensures
            memory == self.memory,
    {
        &self.memory
    }

    pub fn get_objective(&self) -> (objective: &str)
        ensures
            objective@ == self@.objective,
    {
        self.objective.as_str()
    }

    pub fn get_position(&self) -> (position: &str)
        ensures
            position@ == self@.position,
    {
        self.position.as_str()
    }

    pub fn get_state(&self) -> (state: &AgentState)
        ensures
            *state == self.state,
    {
        &self.state
    }
}

/// Every legal transition either moves forward or belongs to the repair
/// loop, whose only target is Working.
pub proof fn lemma_legal_transition_shape(from: AgentState, to: AgentState)
    requires
        legal_transition(from, to),
    ensures
        rank(from) < rank(to) || to == AgentState::Working,
        from != AgentState::Finished,
{
}

} // verus!
