//! The command line of the backend, and what its start can fail with.

use vstd::prelude::*;
use crate::error::{ErrorView, TransportError};
use crate::text::join;

verus! {

/// The words that a POSIX shell splits a text into; `None` where a quotation or
/// an escape is left open.
pub uninterp spec fn shell_words(text: Seq<char>) -> Option<Seq<Seq<char>>>;

/// What words are in contracts.
pub open spec fn word_views(words: Seq<String>) -> Seq<Seq<char>> {
    words.map_values(|w: String| w@)
}

/// What a split is in contracts.
pub open spec fn split_view(words: Option<Vec<String>>) -> Option<Seq<Seq<char>>> {
    match words {
        Some(w) => Some(word_views(w@)),
        None => None,
    }
}

/// `shlex::split` splits a text by the rules of a POSIX shell. Claimed: the
/// outcome depends on the text alone.
pub assume_specification[ shlex::split ](in_str: &str) -> (words: Option<Vec<String>>)
    ensures
        split_view(words) == shell_words(in_str@),
;

/// A program and its arguments.
#[derive(Debug)]
pub struct CommandLine {
    pub program: String,
    pub args: Vec<String>,
}

/// What a split command line is turned into: a program with its arguments, or
/// the reason why it is none.
pub open spec fn command_of(
    words: Option<Seq<Seq<char>>>,
    diagnostic: Seq<char>,
) -> Result<(Seq<char>, Seq<Seq<char>>), ErrorView> {
    match words {
        None => Err(ErrorView::Config("Invalid stdio command quoting: "@ + diagnostic)),
        Some(w) => if w.len() == 0 {
            Err(ErrorView::Config("Empty command"@))
        } else {
            Ok((w[0], w.skip(1)))
        },
    }
}

/// What the outcome of splitting is in contracts.
pub open spec fn command_view(outcome: Result<CommandLine, TransportError>) -> Result<
    (Seq<char>, Seq<Seq<char>>),
    ErrorView,
> {
    match outcome {
        Ok(c) => Ok((c.program@, word_views(c.args@))),
        Err(e) => Err(e@),
    }
}

/// Turns the words of a command line into a program and its arguments.
/// `diagnostic` stands for the command in an error.
pub fn command_from_words(words: Option<Vec<String>>, diagnostic: &str) -> (outcome: Result<
    CommandLine,
    TransportError,
>)
    ensures
        command_view(outcome) == command_of(split_view(words), diagnostic@),
{
    match words {
        None => Err(TransportError::Config(join("Invalid stdio command quoting: ", diagnostic))),
        Some(mut words) => {
            if words.len() == 0 {
                return Err(TransportError::Config("Empty command".to_owned()));
            }
            let ghost all = words@;
            let program: String = words.remove(0);
            assert(word_views(words@) == word_views(all).skip(1));
            Ok(CommandLine { program, args: words })
        },
    }
}

/// Why a process could not be started.
#[derive(Debug, Clone, Copy, PartialEq, Eq, Structural)]
pub enum SpawnFailure {
    /// The program does not exist.
    NotFound,
    /// The program may not be executed.
    PermissionDenied,
    /// Any other reason.
    Other,
}

/// The error of a process that could not be started. A program that does not
/// exist or may not be executed is not there at the next try either.
pub open spec fn spawn_error_of(failure: SpawnFailure, reason: Seq<char>) -> ErrorView {
    let message = "Failed to spawn: "@ + reason;
    if failure == SpawnFailure::Other {
        ErrorView::Transport(message)
    } else {
        ErrorView::TransportPermanent(message)
    }
}

/// The error of a process that could not be started.
pub fn spawn_error(failure: SpawnFailure, reason: &str) -> (error: TransportError)
    ensures
        error@ == spawn_error_of(failure, reason@),
{
    let message: String = join("Failed to spawn: ", reason);
    match failure {
        SpawnFailure::NotFound => TransportError::TransportPermanent(message),
        SpawnFailure::PermissionDenied => TransportError::TransportPermanent(message),
        SpawnFailure::Other => TransportError::Transport(message),
    }
}

/// The first of its three streams that a started process lacks, as an error
/// says it.
pub open spec fn missing_stream(stdin: bool, stdout: bool, stderr: bool) -> Option<Seq<char>> {
    if !stdin {
        Some("Failed to get stdin"@)
    } else if !stdout {
        Some("Failed to get stdout"@)
    } else if !stderr {
        Some("Failed to get stderr"@)
    } else {
        None
    }
}

/// Checks that a started process has its three streams.
pub fn check_streams(stdin: bool, stdout: bool, stderr: bool) -> (outcome: Result<
    (),
    TransportError,
>)
    ensures
        match missing_stream(stdin, stdout, stderr) {
            Some(message) => outcome matches Err(e) && e@ == ErrorView::Transport(message),
            None => outcome is Ok,
        },
{
    if !stdin {
        Err(TransportError::Transport("Failed to get stdin".to_owned()))
    } else if !stdout {
        Err(TransportError::Transport("Failed to get stdout".to_owned()))
    } else if !stderr {
        Err(TransportError::Transport("Failed to get stderr".to_owned()))
    } else {
        Ok(())
    }
}

} // verus!
