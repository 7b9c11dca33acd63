//! What the command line shows and what it makes of the answers typed into
//! it. Printing and reading are the caller's; the decisions are made here.

use vstd::prelude::*;

verus! {

/// The kind of a notice that an agent gives of its work.
#[derive(Debug, Clone, Copy, PartialEq, Eq, Structural)]
pub enum PrintCommand {
    AICall,
    UnitTest,
    Issue,
}

/// The colours in which the statements of agents are written.
#[derive(Debug, Clone, Copy, PartialEq, Eq, Structural)]
pub enum TextColor {
    Cyan,
    Magenta,
    Red,
}

/// A notice ready to be shown: which agent speaks, and what it says it is
/// doing.
#[derive(Debug)]
pub struct AgentNotice {
    pub command: PrintCommand,
    pub position: String,
    pub statement: String,
}

/// Mathematical model of an [`AgentNotice`].
pub struct AgentNoticeView {
    pub command: PrintCommand,
    pub position: Seq<char>,
    pub statement: Seq<char>,
}

impl View for AgentNotice {
    type V = AgentNoticeView;

    open spec fn view(&self) -> AgentNoticeView {
        AgentNoticeView {
            command: self.command,
            position: self.position@,
            statement: self.statement@,
        }
    }
}

/// The colour of a notice's statement, by its kind.
pub open spec fn statement_color_of(command: PrintCommand) -> TextColor {
    match command {
        PrintCommand::AICall => TextColor::Cyan,
        PrintCommand::UnitTest => TextColor::Magenta,
        PrintCommand::Issue => TextColor::Red,
    }
}

impl PrintCommand {
    /// The colour in which a statement of this kind is printed.
    pub fn statement_color(&self) -> (color: TextColor)
        ensures
            color == statement_color_of(*self),
    {
        match self {
            PrintCommand::AICall => TextColor::Cyan,
            PrintCommand::UnitTest => TextColor::Magenta,
            PrintCommand::Issue => TextColor::Red,
        }
    }

    /// The notice of this kind that `agent_pos` gives of `agent_statement`.
    pub fn agent_message(&self, agent_pos: &str, agent_statement: &str) -> (notice: AgentNotice)
        ensures
            notice@ == (AgentNoticeView {
                command: *self,
                position: agent_pos@,
                statement: agent_statement@,
            }),
    {
        AgentNotice {
            command: *self,
            position: String::from_str(agent_pos),
            statement: String::from_str(agent_statement),
        }
    }
}

/// What `str::trim` makes of a text.
pub uninterp spec fn trimmed_text(text: Seq<char>) -> Seq<char>;

/// What `str::to_lowercase` makes of a text.
pub uninterp spec fn lowercase_text(text: Seq<char>) -> Seq<char>;

/// Calls `str::trim`, which cuts the white space off both ends of a text.
/// Nothing is claimed of the result but that it is a function of the text.
#[verifier::external_body]
fn trim_text(text: &str) -> (trimmed: &str)
    ensures
        trimmed@ == trimmed_text(text@),
{
    text.trim()
}

/// Calls `str::to_lowercase`, which turns a text into its lower case.
/// Nothing is claimed of the result but that it is a function of the text.
#[verifier::external_body]
fn lowercase(text: &str) -> (lowered: String)
    ensures
        lowered@ == lowercase_text(text@),
{
    text.to_lowercase()
}

/// Whether two texts are the same.
pub fn same_text(left: &str, right: &str) -> (same: bool)
    ensures
        same == (left@ == right@),
{
    String::from_str(left) == String::from_str(right)
}

/// The answer the user typed, as it is used: the line without the white
/// space around it.
pub fn read_user_response(line: &str) -> (response: String)
    ensures
        response@ == trimmed_text(line@),
{
    String::from_str(trim_text(line))
}

/// What a normalised answer to the safety question means: consent, refusal,
/// or nothing at all.
pub open spec fn confirmation_of(answer: Seq<char>) -> Option<bool> {
    if answer == "1"@ || answer == "ok"@ || answer == "y"@ {
        Some(true)
    } else if answer == "2"@ || answer == "no"@ || answer == "n"@ {
        Some(false)
    } else {
        None
    }
}

/// Reads a normalised answer to the safety question.
pub fn confirmation(answer: &str) -> (decision: Option<bool>)
    ensures
        decision == confirmation_of(answer@),
{
    if same_text(answer, "1") || same_text(answer, "ok") || same_text(answer, "y") {
        Some(true)
    } else if same_text(answer, "2") || same_text(answer, "no") || same_text(answer, "n") {
        Some(false)
    } else {
        None
    }
}

/// Reads one line typed in answer to the question whether generated code
/// may run. The line is trimmed and put in lower case first. `None` means
/// that the question has to be asked again.
pub fn read_confirmation(line: &str) -> (decision: Option<bool>)
    ensures
        decision == confirmation_of(lowercase_text(trimmed_text(line@))),
{
    let human_response = lowercase(trim_text(line));
    confirmation(human_response.as_str())
}

} // verus!
