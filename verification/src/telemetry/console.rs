//! The commands of the interactive alert console: one line of input in, the
//! action it asks for out.

use vstd::prelude::*;
use crate::text::{
    chars_of, lemma_trim_first, lemma_words_nonempty, owned, parse_unsigned, parsed_unsigned, split_words, str_eq,
    string_of, trim, trim_exec, words,
};

verus! {

/// What a console line asks for.
#[derive(Debug, PartialEq, Eq)]
pub enum AlertCommand {
    /// Nothing was typed.
    Empty,
    /// Leave the console.
    Quit,
    /// Suppress an alert for the rest of the session.
    SuppressForSession(String),
    /// Suppress an alert for a number of seconds.
    SuppressTemporarily(String, u64),
    /// Acknowledge an active alert.
    Acknowledge(String),
    /// End every suppression.
    ResetSuppressions,
    /// Show the active alerts.
    ShowActive,
    /// A command lacked arguments; the usage line to show.
    Usage(String),
    /// The command, trimmed, is not known.
    Unknown(String),
}

/// The seconds of a `t` command: the number its third word holds, or sixty.
pub open spec fn seconds_of(w: Seq<char>) -> u64 {
    match parsed_unsigned(w, u64::MAX as nat) {
        Some(n) => n as u64,
        None => 60,
    }
}

/// `r` is what the line `line` asks for.
pub open spec fn asks_for(line: Seq<char>, r: AlertCommand) -> bool {
    let c = trim(line);
    let ws = words(c);
    if c.len() == 0 {
        r is Empty
    } else if ws[0] == "q"@ || ws[0] == "quit"@ || ws[0] == "exit"@ {
        r is Quit
    } else if ws[0] == "s"@ {
        if ws.len() < 2 {
            r matches AlertCommand::Usage(u) && u@ == "Usage: s <alert_id>"@
        } else {
            r matches AlertCommand::SuppressForSession(id) && id@ == ws[1]
        }
    } else if ws[0] == "t"@ {
        if ws.len() < 3 {
            r matches AlertCommand::Usage(u) && u@ == "Usage: t <alert_id> <seconds>"@
        } else {
            r matches AlertCommand::SuppressTemporarily(id, secs) && id@ == ws[1] && secs == seconds_of(ws[2])
        }
    } else if ws[0] == "a"@ {
        if ws.len() < 2 {
            r matches AlertCommand::Usage(u) && u@ == "Usage: a <alert_id>"@
        } else {
            r matches AlertCommand::Acknowledge(id) && id@ == ws[1]
        }
    } else if ws[0] == "r"@ {
        r is ResetSuppressions
    } else if ws[0] == "h"@ {
        r is ShowActive
    } else {
        r matches AlertCommand::Unknown(t) && t@ == c
    }
}

/// Reads a console line: the trimmed line's first word picks the command,
/// the following words are its arguments.
pub fn parse_alert_command(line: &str) -> (r: AlertCommand)
    ensures
        asks_for(line@, r),
{
    let c = trim_exec(&chars_of(line));
    if c.len() == 0 {
        return AlertCommand::Empty;
    }
    let text = string_of(c.as_slice());
    let ws = split_words(text.as_str());
    proof {
        lemma_trim_first(line@);
        lemma_words_nonempty(c@, Seq::empty());
    }
    let first = ws[0].as_str();
    if str_eq(first, "q") || str_eq(first, "quit") || str_eq(first, "exit") {
        AlertCommand::Quit
    } else if str_eq(first, "s") {
        if ws.len() < 2 {
            AlertCommand::Usage(owned("Usage: s <alert_id>"))
        } else {
            AlertCommand::SuppressForSession(ws[1].clone())
        }
    } else if str_eq(first, "t") {
        if ws.len() < 3 {
            AlertCommand::Usage(owned("Usage: t <alert_id> <seconds>"))
        } else {
            let secs = match parse_unsigned(ws[2].as_str(), u64::MAX) {
                Some(n) => n,
                None => 60,
            };
            AlertCommand::SuppressTemporarily(ws[1].clone(), secs)
        }
    } else if str_eq(first, "a") {
        if ws.len() < 2 {
            AlertCommand::Usage(owned("Usage: a <alert_id>"))
        } else {
            AlertCommand::Acknowledge(ws[1].clone())
        }
    } else if str_eq(first, "r") {
        AlertCommand::ResetSuppressions
    } else if str_eq(first, "h") {
        AlertCommand::ShowActive
    } else {
        AlertCommand::Unknown(text)
    }
}

} // verus!
