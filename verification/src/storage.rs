//! The storage layout and its model. Every notepad file of a session lives
//! in a per-user directory `users/<username>/`; a file is addressed as
//! `users/<username>/<filename>`. Because usernames are unique among active
//! sessions, no two concurrent sessions ever address the same directory.
//!
//! The directory itself is modelled as a map from filename to contents:
//! saving is a whole-file overwrite, loading reads a file fully or fails
//! when it is absent, and listing yields the stored names.

use vstd::prelude::*;
use vstd::string::*;

verus! {

/// The on-disk directory of one user, keyed by username.
pub open spec fn user_dir_of(username: Seq<char>) -> Seq<char> {
    "users/"@ + username
}

/// Where a notepad file of one user lives.
pub open spec fn file_path_of(username: Seq<char>, filename: Seq<char>) -> Seq<char> {
    user_dir_of(username) + "/"@ + filename
}

/// Builds the per-user directory path.
pub fn user_dir_path(username: &str) -> (p: String)
    ensures
        p@ == user_dir_of(username@),
{
    let mut p = String::from_str("users/");
    p.append(username);
    p
}

/// Builds the full path of a notepad file.
pub fn file_path(username: &str, filename: &str) -> (p: String)
    ensures
        p@ == file_path_of(username@, filename@),
{
    let mut p = String::from_str("users/");
    p.append(username);
    p.append("/");
    p.append(filename);
    proof {
        assert(p@ =~= file_path_of(username@, filename@));
    }
    p
}

/// Writing a file creates it or overwrites it whole.
pub open spec fn store_write(
    files: Map<Seq<char>, Seq<char>>,
    filename: Seq<char>,
    contents: Seq<char>,
) -> Map<Seq<char>, Seq<char>> {
    files.insert(filename, contents)
}

/// Reading a file yields its whole contents, or nothing when it is absent.
pub open spec fn store_read(files: Map<Seq<char>, Seq<char>>, filename: Seq<char>) -> Option<
    Seq<char>,
> {
    if files.contains_key(filename) {
        Some(files[filename])
    } else {
        None
    }
}

/// Listing a directory yields exactly the names of its files.
pub open spec fn store_list(files: Map<Seq<char>, Seq<char>>) -> Set<Seq<char>> {
    files.dom()
}

} // verus!
