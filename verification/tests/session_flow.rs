use notepad::session::{
    list_error_message, list_message, not_found_message, prompt, taken_message, welcome_banner,
    Action, Session,
};

#[test]
fn append_refreshes_the_screen() {
    let mut s = Session::new();
    match s.on_message("hi") {
        Action::Send { message } => {
            assert_eq!(message, "\x1B[2J\x1B[H--- Virtual Notepad ---\nhi\n\n");
        }
        _ => panic!("an append answers with the refreshed screen"),
    }
    assert_eq!(s.contents().as_str(), "hi\n");
}

#[test]
fn round_trip_restores_the_buffer() {
    let mut s = Session::new();
    s.on_message("a");
    s.on_message("b");
    let written = match s.on_message("SAVE notes.txt") {
        Action::WriteFile { filename, contents, message } => {
            assert_eq!(filename, "notes.txt");
            assert_eq!(contents, "a\nb\n");
            assert_eq!(message, "\n[file saved]\n");
            contents
        }
        _ => panic!("a save hands out the file write"),
    };
    match s.on_message("LOAD notes.txt") {
        Action::ReadFile { filename } => assert_eq!(filename, "notes.txt"),
        _ => panic!("a load asks for the file read"),
    }
    let resp = s.load_ok("notes.txt", written);
    assert_eq!(resp, "\n[File 'notes.txt' Loaded]\n");
    assert_eq!(s.contents().as_str(), "a\nb\n");
}

#[test]
fn save_clears_the_buffer() {
    let mut s = Session::new();
    s.on_message("first");
    s.on_message("SAVE");
    assert_eq!(s.contents().as_str(), "");
    match s.on_message("next") {
        Action::Send { message } => {
            assert_eq!(message, "\x1B[2J\x1B[H--- Virtual Notepad ---\nnext\n\n");
        }
        _ => panic!("an append answers with the refreshed screen"),
    }
    assert_eq!(s.contents().as_str(), "next\n");
}

#[test]
fn load_of_missing_file_keeps_the_buffer() {
    let mut s = Session::new();
    s.on_message("kept");
    match s.on_message("LOAD missing.txt") {
        Action::ReadFile { filename } => assert_eq!(filename, "missing.txt"),
        _ => panic!("a load asks for the file read"),
    }
    assert_eq!(not_found_message(), "\n[Error: File Not Found]\n");
    assert_eq!(s.contents().as_str(), "kept\n");
}

#[test]
fn load_without_argument_answers_usage() {
    let mut s = Session::new();
    s.on_message("kept");
    match s.on_message("LOAD") {
        Action::Send { message } => assert_eq!(message, "\n[Usage: LOAD filename.txt]\n"),
        _ => panic!("a load without argument answers the usage line"),
    }
    assert_eq!(s.contents().as_str(), "kept\n");
}

#[test]
fn ls_asks_for_the_listing() {
    let mut s = Session::new();
    assert!(matches!(s.on_message("LS"), Action::ListDir));
    let entries = vec![String::from("x.txt"), String::from("y.txt")];
    assert_eq!(list_message(&entries), "x.txt\ny.txt\n");
    assert_eq!(list_message(&Vec::new()), "");
    assert_eq!(list_error_message(), "\n[Error: Could not list files]\n");
}

#[test]
fn exit_asks_for_the_release() {
    let mut s = Session::new();
    s.on_message("unsaved");
    assert!(matches!(s.on_message("EXIT"), Action::Release));
}

#[test]
fn fixed_messages_are_exact() {
    assert_eq!(prompt(), "Enter your username: ");
    assert_eq!(taken_message(), "Username already taken. Try again.\n");
    assert_eq!(
        welcome_banner(),
        "\n--- Virtual Notepad ---\nType to edit. Send 'SAVE' to save. Send 'EXIT' to quit.\n\n"
    );
}

#[test]
fn empty_message_appends_a_bare_newline() {
    let mut s = Session::new();
    match s.on_message("   ") {
        Action::Send { message } => {
            assert_eq!(message, "\x1B[2J\x1B[H--- Virtual Notepad ---\n\n\n");
        }
        _ => panic!("an append answers with the refreshed screen"),
    }
    assert_eq!(s.contents().as_str(), "\n");
}
