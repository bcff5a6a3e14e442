use notepad::handler::{login, LoginOutcome};
use notepad::registry::Registry;

#[test]
fn duplicate_registration_fails() {
    let mut r = Registry::new();
    let bob = String::from("bob");
    assert!(r.try_register(&bob));
    assert!(!r.try_register(&bob));
    assert!(r.is_active(&bob));
}

#[test]
fn distinct_names_coexist() {
    let mut r = Registry::new();
    assert!(r.try_register(&String::from("bob")));
    assert!(r.try_register(&String::from("alice")));
    assert!(r.is_active(&String::from("bob")));
    assert!(r.is_active(&String::from("alice")));
}

#[test]
fn release_on_exit_frees_the_name() {
    let mut r = Registry::new();
    let bob = String::from("bob");
    assert!(r.try_register(&bob));
    r.release(&bob);
    assert!(!r.is_active(&bob));
    assert!(r.try_register(&bob));
}

#[test]
fn abrupt_disconnect_does_not_free_the_name() {
    // A session that ends without sending EXIT never calls release, so the
    // name stays registered until the process restarts.
    let mut r = Registry::new();
    let bob = String::from("bob");
    assert!(r.try_register(&bob));
    // The first session's connection drops here; no release happens.
    assert!(!r.try_register(&bob));
}

#[test]
fn release_is_idempotent() {
    let mut r = Registry::new();
    let bob = String::from("bob");
    r.release(&bob);
    assert!(r.try_register(&bob));
    r.release(&bob);
    r.release(&bob);
    assert!(!r.is_active(&bob));
}

#[test]
fn release_keeps_other_names() {
    let mut r = Registry::new();
    assert!(r.try_register(&String::from("bob")));
    assert!(r.try_register(&String::from("alice")));
    r.release(&String::from("bob"));
    assert!(r.is_active(&String::from("alice")));
    assert!(!r.is_active(&String::from("bob")));
}

#[test]
fn login_trims_and_registers() {
    let mut r = Registry::new();
    match login(&mut r, " bob \r\n") {
        LoginOutcome::Accepted { username, welcome, dir } => {
            assert_eq!(username, "bob");
            assert_eq!(
                welcome,
                "\n--- Virtual Notepad ---\nType to edit. Send 'SAVE' to save. Send 'EXIT' to quit.\n\n"
            );
            assert_eq!(dir, "users/bob");
        }
        _ => panic!("a free name is accepted"),
    }
    assert!(r.is_active(&String::from("bob")));
}

#[test]
fn login_rejects_an_active_name() {
    let mut r = Registry::new();
    assert!(matches!(login(&mut r, "bob"), LoginOutcome::Accepted { .. }));
    match login(&mut r, "bob") {
        LoginOutcome::Rejected { message } => {
            assert_eq!(message, "Username already taken. Try again.\n");
        }
        _ => panic!("an active name is refused"),
    }
    // The refusal registered nothing and left the first session active.
    assert!(r.is_active(&String::from("bob")));
}

#[test]
fn empty_username_is_accepted_as_is() {
    let mut r = Registry::new();
    match login(&mut r, "\r\n") {
        LoginOutcome::Accepted { username, dir, .. } => {
            assert_eq!(username, "");
            assert_eq!(dir, "users/");
        }
        _ => panic!("an empty name is accepted as-is"),
    }
    assert!(!r.try_register(&String::new()));
}
