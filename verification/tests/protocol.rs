use notepad::command::{parse, Command};

#[test]
fn save_with_filename() {
    match parse("SAVE notes.txt") {
        Command::Save { filename } => assert_eq!(filename, "notes.txt"),
        _ => panic!("expected a save command"),
    }
}

#[test]
fn save_without_filename_uses_default() {
    match parse("SAVE") {
        Command::Save { filename } => assert_eq!(filename, "notepad.txt"),
        _ => panic!("expected a save command"),
    }
}

#[test]
fn load_with_filename() {
    match parse("LOAD notes.txt") {
        Command::Load { filename } => assert_eq!(filename, "notes.txt"),
        _ => panic!("expected a load command"),
    }
}

#[test]
fn load_without_filename_asks_usage() {
    assert!(matches!(parse("LOAD"), Command::LoadUsage));
}

#[test]
fn ls_lists() {
    assert!(matches!(parse("LS"), Command::List));
}

#[test]
fn exit_exits() {
    assert!(matches!(parse("EXIT"), Command::Exit));
}

#[test]
fn keywords_are_case_sensitive() {
    match parse("save x.txt") {
        Command::Append { text } => assert_eq!(text, "save x.txt"),
        _ => panic!("a lower-case keyword is plain text"),
    }
}

#[test]
fn plain_text_is_appended() {
    match parse("hello world") {
        Command::Append { text } => assert_eq!(text, "hello world"),
        _ => panic!("expected the default append"),
    }
}

#[test]
fn keyword_after_text_is_not_a_command() {
    match parse("please SAVE me") {
        Command::Append { text } => assert_eq!(text, "please SAVE me"),
        _ => panic!("only the first token selects a command"),
    }
}

#[test]
fn messages_are_trimmed() {
    match parse("  SAVE notes.txt \r\n") {
        Command::Save { filename } => assert_eq!(filename, "notes.txt"),
        _ => panic!("expected a save command"),
    }
    match parse("\t hi \n") {
        Command::Append { text } => assert_eq!(text, "hi"),
        _ => panic!("expected the default append"),
    }
}

#[test]
fn whitespace_only_message_appends_empty_text() {
    match parse(" \r\n ") {
        Command::Append { text } => assert_eq!(text, ""),
        _ => panic!("expected the default append"),
    }
}

#[test]
fn extra_tokens_after_filename_are_ignored() {
    match parse("SAVE a.txt b.txt") {
        Command::Save { filename } => assert_eq!(filename, "a.txt"),
        _ => panic!("expected a save command"),
    }
}
