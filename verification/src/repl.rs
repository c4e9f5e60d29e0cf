//! The decisions of the interactive front end: what a line of input means,
//! what to do when reading a line fails, and which messages are shown.
//!
//! Reading lines and printing are left to the caller.

use crate::protocol::{texts_of, FrontendCommand, FrontendCommandView};
use crate::text::{chars_of, has_prefix, is_word, skip_word, string_of, trim_bounds, trimmed};
use vstd::prelude::*;
use vstd::slice::slice_subrange;
use vstd::string::StringExecFns;

verus! {

/// Why a line of input gave no command.
#[derive(Clone, Copy, Debug, PartialEq, Eq, Structural)]
pub enum ParseError {
    /// The user asked for the list of commands.
    Help,
    /// The line is no command.
    Unknown,
}

impl ParseError {
    /// What the user is told. Asking for help is no mistake: its text is
    /// empty.
    pub open spec fn text(self) -> Seq<char> {
        match self {
            ParseError::Help => ""@,
            ParseError::Unknown => "Unknown command. Type 'help' for available commands."@,
        }
    }

    /// What the user is told.
    pub fn message(&self) -> (message: String)
        ensures
            message@ == self.text(),
    {
        match self {
            ParseError::Help => "".to_owned(),
            ParseError::Unknown => {
                "Unknown command. Type 'help' for available commands.".to_owned()
            },
        }
    }
}

/// What a line of input means.
///
/// White space around the line does not count. `start`, `stop`, `build` and
/// `status` are the commands of those names; `exit` and `quit` disconnect;
/// `change` followed by a space and a description is a change request, and
/// the description is all that stands behind that space; `help` asks for the
/// list of commands. Anything else is unknown.
pub open spec fn parse_spec(line: Seq<char>) -> Result<FrontendCommandView, ParseError> {
    let word = trimmed(line);
    if word == "start"@ {
        Ok(FrontendCommandView::StartActor)
    } else if word == "stop"@ {
        Ok(FrontendCommandView::StopActor)
    } else if word == "build"@ {
        Ok(FrontendCommandView::BuildActor)
    } else if word == "status"@ {
        Ok(FrontendCommandView::GetStatus)
    } else if word == "exit"@ || word == "quit"@ {
        Ok(FrontendCommandView::Disconnect)
    } else if has_prefix(word, "change "@) {
        Ok(FrontendCommandView::ChangeRequest { description: word.skip("change "@.len() as int) })
    } else if word == "help"@ {
        Err(ParseError::Help)
    } else {
        Err(ParseError::Unknown)
    }
}

/// Reads a line of input as a command.
pub fn parse_command(line: &str) -> (r: Result<FrontendCommand, ParseError>)
    ensures
        match parse_spec(line@) {
            Ok(command) => r is Ok && r->Ok_0@ == command,
            Err(error) => r == Err::<FrontendCommand, ParseError>(error),
        },
{
    let chars = chars_of(line);
    let (from, to) = trim_bounds(&chars);
    let ghost word = chars@.subrange(from as int, to as int);
    if is_word(&chars, from, to, "start") {
        Ok(FrontendCommand::StartActor)
    } else if is_word(&chars, from, to, "stop") {
        Ok(FrontendCommand::StopActor)
    } else if is_word(&chars, from, to, "build") {
        Ok(FrontendCommand::BuildActor)
    } else if is_word(&chars, from, to, "status") {
        Ok(FrontendCommand::GetStatus)
    } else if is_word(&chars, from, to, "exit") || is_word(&chars, from, to, "quit") {
        Ok(FrontendCommand::Disconnect)
    } else {
        match skip_word(&chars, from, to, "change ") {
            Some(behind) => {
                assert(word.skip(behind - from) =~= chars@.subrange(behind as int, to as int));
                let description = string_of(slice_subrange(chars.as_slice(), behind, to));
                Ok(FrontendCommand::ChangeRequest { description })
            },
            None => {
                if is_word(&chars, from, to, "help") {
                    Err(ParseError::Help)
                } else {
                    Err(ParseError::Unknown)
                }
            },
        }
    }
}

/// What the user sees when asking for help: the list of commands, between
/// two empty lines.
pub open spec fn help_text() -> Seq<Seq<char>> {
    seq![
        ""@,
        "Available commands:"@,
        "  start         - Start the managed actor"@,
        "  stop          - Stop the managed actor"@,
        "  build         - Build the managed actor"@,
        "  change <desc> - Submit a change request"@,
        "  status        - Get current status"@,
        "  help          - Show this help message"@,
        "  exit/quit     - Exit the REPL"@,
        ""@,
    ]
}

/// The lines of the help text.
pub fn help_lines() -> (out: Vec<String>)
    ensures
        texts_of(out@) == help_text(),
{
    let mut out: Vec<String> = Vec::new();
    out.push(String::from_str(""));
    out.push(String::from_str("Available commands:"));
    out.push(String::from_str("  start         - Start the managed actor"));
    out.push(String::from_str("  stop          - Stop the managed actor"));
    out.push(String::from_str("  build         - Build the managed actor"));
    out.push(String::from_str("  change <desc> - Submit a change request"));
    out.push(String::from_str("  status        - Get current status"));
    out.push(String::from_str("  help          - Show this help message"));
    out.push(String::from_str("  exit/quit     - Exit the REPL"));
    out.push(String::from_str(""));
    out
}

/// What reading a line of input gave.
#[derive(Clone, Debug, PartialEq, Eq)]
pub enum Input {
    /// The user entered a line.
    Line(String),
    /// The user interrupted the input.
    Interrupted,
    /// The input has ended.
    Eof,
    /// Reading failed; this is the reason.
    Failed(String),
}

/// The view of [`Input`].
pub enum InputView {
    Line(Seq<char>),
    Interrupted,
    Eof,
    Failed(Seq<char>),
}

impl View for Input {
    type V = InputView;

    open spec fn view(&self) -> InputView {
        match self {
            Input::Line(line) => InputView::Line(line@),
            Input::Interrupted => InputView::Interrupted,
            Input::Eof => InputView::Eof,
            Input::Failed(reason) => InputView::Failed(reason@),
        }
    }
}

/// What the front end does about an input.
#[derive(Clone, Debug, PartialEq, Eq)]
pub struct Reaction {
    /// Lines to show to the user.
    pub output: Vec<String>,
    /// The command to put on the command queue, if any.
    pub command: Option<FrontendCommand>,
    /// Whether the input loop ends here.
    pub quit: bool,
}

/// The view of [`Reaction`].
pub struct ReactionView {
    pub output: Seq<Seq<char>>,
    pub command: Option<FrontendCommandView>,
    pub quit: bool,
}

impl View for Reaction {
    type V = ReactionView;

    open spec fn view(&self) -> ReactionView {
        ReactionView {
            output: texts_of(self.output@),
            command: match self.command {
                Some(command) => Some(command@),
                None => None,
            },
            quit: self.quit,
        }
    }
}

/// What the front end does about an input.
///
/// A line that is a command is passed on, and ends the loop if it
/// disconnects. A request for help shows the list of commands; any other
/// line shows what is wrong with it; neither reaches the command queue. An
/// interrupt or the end of the input disconnects. A failure to read is shown
/// and ends the loop without a command.
pub open spec fn react_spec(input: InputView) -> ReactionView {
    match input {
        InputView::Line(line) => match parse_spec(line) {
            Ok(command) => ReactionView {
                output: Seq::empty(),
                command: Some(command),
                quit: command is Disconnect,
            },
            Err(ParseError::Help) => ReactionView {
                output: help_text(),
                command: None,
                quit: false,
            },
            Err(error) => ReactionView {
                output: seq!["Error: "@ + error.text()],
                command: None,
                quit: false,
            },
        },
        InputView::Interrupted => ReactionView {
            output: Seq::empty(),
            command: Some(FrontendCommandView::Disconnect),
            quit: true,
        },
        InputView::Eof => ReactionView {
            output: Seq::empty(),
            command: Some(FrontendCommandView::Disconnect),
            quit: true,
        },
        InputView::Failed(reason) => ReactionView {
            output: seq!["Error: "@ + reason],
            command: None,
            quit: true,
        },
    }
}

/// Only commands reach the command queue.
///
/// A line puts a command on the queue exactly when it is one; a request for
/// help and a line that is no command put nothing there and do not end the
/// loop.
pub proof fn lemma_only_commands_are_passed_on(line: Seq<char>)
    ensures
        react_spec(InputView::Line(line)).command is Some <==> parse_spec(line) is Ok,
        parse_spec(line) matches Ok(command) ==> react_spec(InputView::Line(line)).command == Some(
            command,
        ),
        parse_spec(line) is Err ==> !react_spec(InputView::Line(line)).quit,
{
}

/// Decides what to do about an input.
pub fn react(input: Input) -> (reaction: Reaction)
    ensures
        reaction@ == react_spec(input@),
{
    match input {
        Input::Line(line) => match parse_command(line.as_str()) {
            Ok(command) => {
                let quit = matches!(command, FrontendCommand::Disconnect);
                let reaction = Reaction { output: Vec::new(), command: Some(command), quit };
                assert(reaction@.output =~= Seq::<Seq<char>>::empty());
                reaction
            },
            Err(ParseError::Help) => Reaction { output: help_lines(), command: None, quit: false },
            Err(error) => {
                let mut line = String::from_str("Error: ");
                line.append(error.message().as_str());
                let mut output: Vec<String> = Vec::new();
                output.push(line);
                assert(texts_of(output@) =~= seq![line@]);
                Reaction { output, command: None, quit: false }
            },
        },
        Input::Interrupted | Input::Eof => {
            let reaction = Reaction {
                output: Vec::new(),
                command: Some(FrontendCommand::Disconnect),
                quit: true,
            };
            assert(reaction@.output =~= Seq::<Seq<char>>::empty());
            reaction
        },
        Input::Failed(reason) => {
            let mut line = String::from_str("Error: ");
            line.append(reason.as_str());
            let mut output: Vec<String> = Vec::new();
            output.push(line);
            assert(texts_of(output@) =~= seq![line@]);
            Reaction { output, command: None, quit: true }
        },
    }
}

/// What the user is told when a command could not be put on the command
/// queue because the session has ended.
pub open spec fn send_failure_text(command: FrontendCommandView, reason: Seq<char>) -> Seq<char> {
    if command is Disconnect {
        "Error sending disconnect: "@ + reason
    } else {
        "Error sending command: "@ + reason
    }
}

/// The line that reports a command the command queue refused. The input
/// loop ends after it.
pub fn send_failure(command: &FrontendCommand, reason: &str) -> (line: String)
    ensures
        line@ == send_failure_text(command@, reason@),
{
    let mut line = if matches!(command, FrontendCommand::Disconnect) {
        String::from_str("Error sending disconnect: ")
    } else {
        String::from_str("Error sending command: ")
    };
    line.append(reason);
    line
}

} // verus!
