//! The session's semantics in one place: a mathematical state — the edit
//! buffer together with the user directory's contents — and the step that
//! one parsed command takes on it. The executable layer is proved against
//! the same buffer transitions ([`crate::session`]) and file transitions
//! ([`crate::storage`]); the laws below hold of whole command sequences.

use crate::command::CommandModel;
use crate::session::appended_line;
use crate::storage::{store_list, store_read, store_write};
use vstd::prelude::*;

verus! {

/// One session's state: the in-memory buffer and the files of its user
/// directory, each filename mapped to the whole contents.
pub struct NotepadState {
    pub buffer: Seq<char>,
    pub files: Map<Seq<char>, Seq<char>>,
}

/// What one command does to a session's state.
///
/// - An append extends the buffer by the text and a newline.
/// - A save overwrites the named file with the whole buffer and clears
///   the buffer.
/// - A load replaces the buffer with the named file's contents, or leaves
///   everything unchanged when the file is absent.
/// - The usage answer, the listing and the exit leave the state unchanged.
pub open spec fn step(s: NotepadState, cmd: CommandModel) -> NotepadState {
    match cmd {
        CommandModel::Append { text } => NotepadState {
            buffer: appended_line(s.buffer, text),
            files: s.files,
        },
        CommandModel::Save { filename } => NotepadState {
            buffer: Seq::empty(),
            files: store_write(s.files, filename, s.buffer),
        },
        CommandModel::Load { filename } => match store_read(s.files, filename) {
            Option::Some(contents) => NotepadState { buffer: contents, files: s.files },
            Option::None => s,
        },
        CommandModel::LoadUsage => s,
        CommandModel::List => s,
        CommandModel::Exit => s,
    }
}

/// What a save writes is exactly what a later load of the same file
/// returns: the buffer at the save reappears whole.
pub proof fn lemma_save_then_load(s: NotepadState, f: Seq<char>)
    ensures
        step(step(s, CommandModel::Save { filename: f }), CommandModel::Load { filename: f })
            .buffer == s.buffer,
{
}

/// Round trip: two lines appended to an empty buffer, saved to a file and
/// loaded back yield a buffer holding each line followed by a newline.
pub proof fn lemma_round_trip(s: NotepadState, la: Seq<char>, lb: Seq<char>, f: Seq<char>)
    requires
        s.buffer == Seq::<char>::empty(),
    ensures
        ({
            let s1 = step(s, CommandModel::Append { text: la });
            let s2 = step(s1, CommandModel::Append { text: lb });
            let s3 = step(s2, CommandModel::Save { filename: f });
            let s4 = step(s3, CommandModel::Load { filename: f });
            s4.buffer == la + seq!['\n'] + lb + seq!['\n']
        }),
{
    let s1 = step(s, CommandModel::Append { text: la });
    let s2 = step(s1, CommandModel::Append { text: lb });
    let s3 = step(s2, CommandModel::Save { filename: f });
    lemma_save_then_load(s2, f);
    assert(s2.buffer =~= la + seq!['\n'] + lb + seq!['\n']);
}

/// After any save, the buffer is empty, so the next default-action append
/// starts from nothing: the buffer then holds that text alone.
pub proof fn lemma_save_clears_buffer(s: NotepadState, f: Seq<char>, t: Seq<char>)
    ensures
        step(s, CommandModel::Save { filename: f }).buffer == Seq::<char>::empty(),
        step(
            step(s, CommandModel::Save { filename: f }),
            CommandModel::Append { text: t },
        ).buffer == t + seq!['\n'],
{
    assert(Seq::<char>::empty() + t + seq!['\n'] =~= t + seq!['\n']);
}

/// Loading a missing file changes nothing: the buffer and the directory
/// stay exactly as they were.
pub proof fn lemma_load_missing_keeps_state(s: NotepadState, f: Seq<char>)
    requires
        !s.files.contains_key(f),
    ensures
        step(s, CommandModel::Load { filename: f }) == s,
{
}

/// The listing reflects the saves: from an empty directory, saving to `x`
/// and then to `y` makes the listing exactly `{x, y}`, whatever the
/// buffers held.
pub proof fn lemma_listing_reflects_saves(s: NotepadState, x: Seq<char>, y: Seq<char>)
    requires
        s.files == Map::<Seq<char>, Seq<char>>::empty(),
    ensures
        ({
            let s1 = step(s, CommandModel::Save { filename: x });
            let s2 = step(s1, CommandModel::Save { filename: y });
            store_list(s2.files) == set![x, y]
        }),
{
    let s1 = step(s, CommandModel::Save { filename: x });
    let s2 = step(s1, CommandModel::Save { filename: y });
    assert(store_list(s2.files) =~= set![x, y]);
}

} // verus!
