//! One client's session while it is active: the in-memory edit buffer and
//! the step that each received message drives. The step decides everything
//! — how the buffer changes, what the client is told, and what the caller
//! must do to the user's directory — while the caller performs the actual
//! socket and file traffic and feeds results back in.

use crate::command::{parse, parse_of, Command, CommandModel};
use crate::text::{joined_lines, join_lines, views_of};
use vstd::prelude::*;
use vstd::string::*;

verus! {

/// What the connection loop must do after a message is handled.
pub enum Action {
    /// Send `message` to the client.
    Send { message: String },
    /// Write `contents` whole to the session's file `filename`
    /// (create or truncate), then send `message`. A write failure is
    /// fatal to the connection.
    WriteFile { filename: String, contents: String, message: String },
    /// Read the session's file `filename` fully, then report the result
    /// through [`Session::load_ok`] or answer with [`not_found_message`].
    ReadFile { filename: String },
    /// List the entry names of the session's directory, then answer with
    /// [`list_message`] or [`list_error_message`].
    ListDir,
    /// Release the session's username from the registry and close the
    /// connection.
    Release,
}

/// What a default-action append leaves in the buffer: the old text, the
/// received text, and a newline.
pub open spec fn appended_line(buffer: Seq<char>, text: Seq<char>) -> Seq<char> {
    buffer + text + seq!['\n']
}

/// The screen refresh sent after an append: clear-screen, header, and the
/// whole current buffer.
pub open spec fn refresh_of(buffer: Seq<char>) -> Seq<char> {
    "\x1B[2J\x1B[H--- Virtual Notepad ---\n"@ + buffer + "\n"@
}

/// The confirmation sent after a file was loaded.
pub open spec fn loaded_of(filename: Seq<char>) -> Seq<char> {
    "\n[File '"@ + filename + "' Loaded]\n"@
}

/// An active session's in-memory edit buffer.
pub struct Session {
    buffer: String,
}

impl View for Session {
    type V = Seq<char>;

    closed spec fn view(&self) -> Seq<char> {
        self.buffer@
    }
}

impl Session {
    /// A fresh session starts with an empty buffer.
    pub fn new() -> (s: Session)
        ensures
            s@ == Seq::<char>::empty(),
    {
        Session { buffer: String::new() }
    }

    /// The current buffer text.
    pub fn contents(&self) -> (c: &String)
        ensures
            c@ == self@,
    {
        &self.buffer
    }

    /// Handles one received message: parses it and takes the step its
    /// command asks for.
    ///
    /// - A default-action message is appended to the buffer, with a
    ///   newline, and the refreshed screen is sent back.
    /// - `SAVE` hands out the whole buffer for the file write and clears
    ///   the buffer.
    /// - `LOAD` with an argument asks for the file read and leaves the
    ///   buffer as it is until the read succeeds; without an argument it
    ///   answers with the usage message.
    /// - `LS` asks for the directory listing; `EXIT` asks for the
    ///   username's release. Neither touches the buffer.
    pub fn on_message(&mut self, msg: &str) -> (a: Action)
        ensures
            ({
                let cmd = parse_of(msg@);
                match cmd {
                    CommandModel::Append { text } => {
                        &&& final(self)@ == appended_line(old(self)@, text)
                        &&& (a matches Action::Send { message } && message@ == refresh_of(
                            final(self)@,
                        ))
                    },
                    CommandModel::Save { filename: f } => {
                        &&& final(self)@ == Seq::<char>::empty()
                        &&& (a matches Action::WriteFile { filename, contents, message }
                            && filename@ == f && contents@ == old(self)@ && message@
                            == "\n[file saved]\n"@)
                    },
                    CommandModel::Load { filename: f } => {
                        &&& final(self)@ == old(self)@
                        &&& (a matches Action::ReadFile { filename } && filename@ == f)
                    },
                    CommandModel::LoadUsage => {
                        &&& final(self)@ == old(self)@
                        &&& (a matches Action::Send { message } && message@
                            == "\n[Usage: LOAD filename.txt]\n"@)
                    },
                    CommandModel::List => {
                        &&& final(self)@ == old(self)@
                        &&& a is ListDir
                    },
                    CommandModel::Exit => {
                        &&& final(self)@ == old(self)@
                        &&& a is Release
                    },
                }
            }),
    {
        let cmd = parse(msg);
        match cmd {
            Command::Append { text } => {
                self.buffer.append(text.as_str());
                self.buffer.append("\n");
                proof {
                    reveal_strlit("\n");
                    assert("\n"@ =~= seq!['\n']);
                    assert(self.buffer@ =~= old(self)@ + text@ + seq!['\n']);
                }
                let mut m = String::from_str("\x1B[2J\x1B[H--- Virtual Notepad ---\n");
                m.append(self.buffer.as_str());
                m.append("\n");
                proof {
                    assert(m@ =~= refresh_of(self.buffer@));
                }
                Action::Send { message: m }
            },
            Command::Save { filename } => {
                let contents = self.buffer.clone();
                self.buffer = String::new();
                Action::WriteFile {
                    filename,
                    contents,
                    message: String::from_str("\n[file saved]\n"),
                }
            },
            Command::Load { filename } => Action::ReadFile { filename },
            Command::LoadUsage => Action::Send {
                message: String::from_str("\n[Usage: LOAD filename.txt]\n"),
            },
            Command::List => Action::ListDir,
            Command::Exit => Action::Release,
        }
    }

    /// Applies a successful file read: the buffer is replaced whole by the
    /// file's contents — unsaved edits are discarded — and the client is
    /// told which file was loaded.
    pub fn load_ok(&mut self, filename: &str, contents: String) -> (resp: String)
        ensures
            final(self)@ == contents@,
            resp@ == loaded_of(filename@),
    {
        self.buffer = contents;
        let mut m = String::from_str("\n[File '");
        m.append(filename);
        m.append("' Loaded]\n");
        proof {
            assert(m@ =~= loaded_of(filename@));
        }
        m
    }
}

/// The username prompt sent when a connection opens.
pub fn prompt() -> (m: String)
    ensures
        m@ == "Enter your username: "@,
{
    String::from_str("Enter your username: ")
}

/// The refusal sent when the requested username is already active.
pub fn taken_message() -> (m: String)
    ensures
        m@ == "Username already taken. Try again.\n"@,
{
    String::from_str("Username already taken. Try again.\n")
}

/// The banner sent once a username is registered.
pub fn welcome_banner() -> (m: String)
    ensures
        m@ == "\n--- Virtual Notepad ---\nType to edit. Send 'SAVE' to save. Send 'EXIT' to quit.\n\n"@,
{
    String::from_str(
        "\n--- Virtual Notepad ---\nType to edit. Send 'SAVE' to save. Send 'EXIT' to quit.\n\n",
    )
}

/// The answer to a `LOAD` whose file does not exist; the buffer is left
/// untouched.
pub fn not_found_message() -> (m: String)
    ensures
        m@ == "\n[Error: File Not Found]\n"@,
{
    String::from_str("\n[Error: File Not Found]\n")
}

/// The answer to an `LS`: the directory's entry names, one per line.
pub fn list_message(entries: &Vec<String>) -> (m: String)
    ensures
        m@ == joined_lines(views_of(entries@)),
{
    join_lines(entries)
}

/// The answer to an `LS` whose directory could not be read.
pub fn list_error_message() -> (m: String)
    ensures
        m@ == "\n[Error: Could not list files]\n"@,
{
    String::from_str("\n[Error: Could not list files]\n")
}

} // verus!
