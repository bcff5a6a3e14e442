//! The connection's opening step. A connection starts awaiting a username:
//! the first message names one, and registration decides whether the
//! session becomes active (welcome banner, fresh buffer, a user directory
//! to ensure) or ends at once (name already taken). The caller does the
//! socket traffic and, on acceptance, creates the directory if it is
//! missing.

use crate::registry::{register_outcome, Registry};
use crate::session::{taken_message, welcome_banner};
use crate::storage::{user_dir_of, user_dir_path};
use crate::text::{trim, trim_of};
use vstd::prelude::*;

verus! {

/// How the opening step ends.
pub enum LoginOutcome {
    /// The name is already active: send `message` and end the session
    /// without ever having registered.
    Rejected { message: String },
    /// The name was registered: ensure the directory `dir` exists, send
    /// `welcome`, and enter the active command loop with an empty buffer.
    Accepted { username: String, welcome: String, dir: String },
}

/// Handles the username message: the text is trimmed to form the name —
/// an empty one is accepted as-is — and registered if no active session
/// holds it.
pub fn login(registry: &mut Registry, msg: &str) -> (o: LoginOutcome)
    requires
        old(registry).wf(),
    ensures
        final(registry).wf(),
        ({
            let name = trim_of(msg@);
            &&& final(registry)@ == register_outcome(old(registry)@, name).1
            &&& if old(registry)@.contains(name) {
                o matches LoginOutcome::Rejected { message } && message@
                    == "Username already taken. Try again.\n"@
            } else {
                o matches LoginOutcome::Accepted { username, welcome, dir } && username@ == name
                    && welcome@
                    == "\n--- Virtual Notepad ---\nType to edit. Send 'SAVE' to save. Send 'EXIT' to quit.\n\n"@
                    && dir@ == user_dir_of(name)
            }
        }),
{
    let name = trim(msg);
    if registry.try_register(&name) {
        let dir = user_dir_path(name.as_str());
        LoginOutcome::Accepted { username: name, welcome: welcome_banner(), dir }
    } else {
        LoginOutcome::Rejected { message: taken_message() }
    }
}

} // verus!
