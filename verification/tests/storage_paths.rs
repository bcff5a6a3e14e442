use notepad::storage::{file_path, user_dir_path};

#[test]
fn user_directory_is_keyed_by_username() {
    assert_eq!(user_dir_path("bob"), "users/bob");
}

#[test]
fn file_lives_inside_the_user_directory() {
    assert_eq!(file_path("bob", "notes.txt"), "users/bob/notes.txt");
    assert_eq!(file_path("alice", "notepad.txt"), "users/alice/notepad.txt");
}
