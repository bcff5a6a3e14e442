//! The command protocol: each message a client sends while its session is
//! active is parsed into one closed command variant. The first
//! whitespace-separated token selects the command by exact, case-sensitive
//! match; anything else falls to the default append action.

use crate::text::{tokens, tokens_of, trim, trim_of, views_of};
use vstd::prelude::*;
use vstd::string::*;

verus! {

/// A parsed client command.
pub enum Command {
    /// `SAVE [filename]`: persist the buffer, then clear it. Without an
    /// argument the filename defaults to `notepad.txt`.
    Save { filename: String },
    /// `LOAD filename`: replace the buffer with the file's contents.
    Load { filename: String },
    /// `LOAD` without an argument: answer with the usage message.
    LoadUsage,
    /// `LS`: list the session's directory entries.
    List,
    /// `EXIT`: release the username and end the session.
    Exit,
    /// Anything else: append the trimmed message to the buffer.
    Append { text: String },
}

/// The mathematical image of a [`Command`].
pub enum CommandModel {
    Save { filename: Seq<char> },
    Load { filename: Seq<char> },
    LoadUsage,
    List,
    Exit,
    Append { text: Seq<char> },
}

impl View for Command {
    type V = CommandModel;

    open spec fn view(&self) -> CommandModel {
        match self {
            Command::Save { filename } => CommandModel::Save { filename: filename@ },
            Command::Load { filename } => CommandModel::Load { filename: filename@ },
            Command::LoadUsage => CommandModel::LoadUsage,
            Command::List => CommandModel::List,
            Command::Exit => CommandModel::Exit,
            Command::Append { text } => CommandModel::Append { text: text@ },
        }
    }
}

/// How a raw message parses: it is trimmed, tokenized, and the first token
/// is matched, case-sensitively, against the four keywords.
pub open spec fn parse_of(m: Seq<char>) -> CommandModel {
    let t = trim_of(m);
    let toks = tokens_of(t);
    if toks.len() == 0 {
        CommandModel::Append { text: t }
    } else if toks[0] == "SAVE"@ {
        CommandModel::Save {
            filename: if toks.len() > 1 {
                toks[1]
            } else {
                "notepad.txt"@
            },
        }
    } else if toks[0] == "LOAD"@ {
        if toks.len() > 1 {
            CommandModel::Load { filename: toks[1] }
        } else {
            CommandModel::LoadUsage
        }
    } else if toks[0] == "LS"@ {
        CommandModel::List
    } else if toks[0] == "EXIT"@ {
        CommandModel::Exit
    } else {
        CommandModel::Append { text: t }
    }
}

/// Compares a token against a keyword literal.
fn eq_keyword(a: &String, b: &str) -> (r: bool)
    ensures
        r == (a@ == b@),
{
    let bs = String::from_str(b);
    a.eq(&bs)
}

/// Parses one received message into the command it selects.
pub fn parse(msg: &str) -> (c: Command)
    ensures
        c@ == parse_of(msg@),
{
    let t = trim(msg);
    let toks = tokens(t.as_str());
    proof {
        assert(views_of(toks@) == tokens_of(t@));
    }
    if toks.len() == 0 {
        return Command::Append { text: t };
    }
    let first = &toks[0];
    proof {
        assert(first@ == tokens_of(t@)[0]);
    }
    if eq_keyword(first, "SAVE") {
        let filename = if toks.len() > 1 {
            let f = &toks[1];
            proof {
                assert(f@ == tokens_of(t@)[1]);
            }
            f.clone()
        } else {
            String::from_str("notepad.txt")
        };
        Command::Save { filename }
    } else if eq_keyword(first, "LOAD") {
        if toks.len() > 1 {
            let f = &toks[1];
            proof {
                assert(f@ == tokens_of(t@)[1]);
            }
            Command::Load { filename: f.clone() }
        } else {
            Command::LoadUsage
        }
    } else if eq_keyword(first, "LS") {
        Command::List
    } else if eq_keyword(first, "EXIT") {
        Command::Exit
    } else {
        Command::Append { text: t }
    }
}

} // verus!
