use crate::helpers::text::{lowercase_text, lowercased, same_text, trim_text, trimmed};
use vstd::prelude::*;
use vstd::string::StringExecFns;

verus! {

/// The kind of a progress line, which decides its colour.
#[derive(PartialEq, Eq, Debug, Clone, Copy, Structural)]
pub enum PrintCommand {
    AICall,
    UnitTest,
    Issue,
}

/// The foreground colours that the pipeline prints in.
#[derive(PartialEq, Eq, Debug, Clone, Copy, Structural)]
pub enum TextColor {
    Green,
    Cyan,
    Magenta,
    Red,
    Blue,
    DarkRed,
}

/// A piece of text with the colour to print it in.
#[derive(Debug, PartialEq)]
pub struct StyledText {
    pub color: TextColor,
    pub text: String,
}

/// The text `Agent: <subject>: ` that opens both halves of a progress line.
pub open spec fn agent_label(subject: Seq<char>) -> Seq<char> {
    "Agent: "@ + subject + ": "@
}

impl PrintCommand {
    /// The colour of the statement of a progress line of this kind.
    pub open spec fn color(self) -> TextColor {
        match self {
            PrintCommand::AICall => TextColor::Cyan,
            PrintCommand::UnitTest => TextColor::Magenta,
            PrintCommand::Issue => TextColor::Red,
        }
    }

    /// The colour of the statement of a progress line of this kind.
    pub fn statement_color(&self) -> (color: TextColor)
        ensures
            color == self.color(),
    {
        match self {
            PrintCommand::AICall => TextColor::Cyan,
            PrintCommand::UnitTest => TextColor::Magenta,
            PrintCommand::Issue => TextColor::Red,
        }
    }

    /// The two halves of a progress line, in the order in which they are
    /// printed: the agent's position in green, then the statement in the
    /// colour of this kind.
    pub fn agent_message(&self, agent_pos: &str, agent_statement: &str) -> (parts: (
        StyledText,
        StyledText,
    ))
        ensures
            parts.0.color == TextColor::Green,
            parts.0.text@ == agent_label(agent_pos@),
            parts.1.color == self.color(),
            parts.1.text@ == agent_label(agent_statement@),
    {
        let mut position = String::from_str("Agent: ");
        position.append(agent_pos);
        position.append(": ");
        let mut statement = String::from_str("Agent: ");
        statement.append(agent_statement);
        statement.append(": ");
        (
            StyledText { color: TextColor::Green, text: position },
            StyledText { color: self.statement_color(), text: statement },
        )
    }
}

/// What an answer to the request for consent means.
#[derive(PartialEq, Eq, Debug, Clone, Copy, Structural)]
pub enum Confirmation {
    /// Go on and run the generated code.
    Proceed,
    /// Stop the project.
    Stop,
    /// Neither: the question is asked again.
    Unrecognized,
}

/// The meaning of an answer that is already trimmed and in lower case:
/// `1`, `ok` and `y` agree, `2`, `no` and `n` decline, anything else is not
/// an answer.
pub open spec fn confirmation_of(answer: Seq<char>) -> Confirmation {
    if answer == "1"@ || answer == "ok"@ || answer == "y"@ {
        Confirmation::Proceed
    } else if answer == "2"@ || answer == "no"@ || answer == "n"@ {
        Confirmation::Stop
    } else {
        Confirmation::Unrecognized
    }
}

/// Classifies an answer that is already trimmed and in lower case.
pub fn classify_confirmation(answer: &str) -> (meaning: Confirmation)
    ensures
        meaning == confirmation_of(answer@),
{
    if same_text(answer, "1") || same_text(answer, "ok") || same_text(answer, "y") {
        Confirmation::Proceed
    } else if same_text(answer, "2") || same_text(answer, "no") || same_text(answer, "n") {
        Confirmation::Stop
    } else {
        Confirmation::Unrecognized
    }
}

/// Classifies a line as it was read from the terminal: the line is trimmed
/// and put in lower case, then classified.
pub fn read_confirmation(line: &str) -> (meaning: Confirmation)
    ensures
        meaning == confirmation_of(lowercased(trimmed(line@))),
{
    let stripped = trim_text(line);
    let lowered = lowercase_text(stripped.as_str());
    classify_confirmation(lowered.as_str())
}

/// The answer of the user to a free question: the line that was read,
/// trimmed.
pub fn clean_user_response(line: &str) -> (answer: String)
    ensures
        answer@ == trimmed(line@),
{
    trim_text(line)
}

} // verus!
