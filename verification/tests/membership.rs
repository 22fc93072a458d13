use lms::api::{user_alter, user_info, user_lookup, user_register, user_unregister};
use lms::ledger::Ledger;
use lms::model::{
    RequestUserAlter, RequestUserInfo, RequestUserLookup, RequestUserRegister,
    RequestUserUnregister,
};

fn register(ledger: &mut Ledger, username: &str, email: &str, info: &str) -> (bool, u64, String) {
    let resp = user_register(
        ledger,
        RequestUserRegister {
            username: username.to_string(),
            email: email.to_string(),
            info: info.to_string(),
        },
    );
    (resp.success, resp.uid, resp.message)
}

#[test]
fn register_rejects_short_username_without_storing() {
    let mut ledger = Ledger::new();
    let (ok, uid, message) = register(&mut ledger, "abc", "a@b.com", "student");
    assert!(!ok);
    assert_eq!(uid, 0);
    assert_eq!(message, "username is not legit");
    let info = user_info(&ledger, RequestUserInfo { uid: 1 });
    assert!(!info.success);
    assert_eq!(info.message, "not found");
}

#[test]
fn register_rejects_spaced_username_without_storing() {
    let mut ledger = Ledger::new();
    let (ok, uid, message) = register(&mut ledger, "ali ce", "a@b.com", "student");
    assert!(!ok);
    assert_eq!(uid, 0);
    assert_eq!(message, "username is not legit");
    let lookup = user_lookup(&ledger, RequestUserLookup { phrase: "ali ce".to_string() });
    assert!(!lookup.success);
}

#[test]
fn register_rejects_bad_email() {
    let mut ledger = Ledger::new();
    let (ok, uid, message) = register(&mut ledger, "alice_01", "not-an-email", "student");
    assert!(!ok);
    assert_eq!(uid, 0);
    assert_eq!(message, "email is not legit");
}

#[test]
fn register_then_lookup_by_username_and_email() {
    // Register("alice_01","a@b.com","student") succeeds with uid 1, and
    // both lookup forms find that same identifier.
    let mut ledger = Ledger::new();
    let (ok, uid, message) = register(&mut ledger, "alice_01", "a@b.com", "student");
    assert!(ok);
    assert_eq!(uid, 1);
    assert_eq!(message, "success");

    let by_name = user_lookup(&ledger, RequestUserLookup { phrase: "alice_01".to_string() });
    assert!(by_name.success);
    assert_eq!(by_name.uid, 1);
    assert_eq!(by_name.message, "success");

    let by_email = user_lookup(&ledger, RequestUserLookup { phrase: ":a@b.com".to_string() });
    assert!(by_email.success);
    assert_eq!(by_email.uid, 1);
    assert_eq!(by_email.message, "success");
}

#[test]
fn register_generates_consecutive_uids() {
    let mut ledger = Ledger::new();
    assert_eq!(register(&mut ledger, "alice_01", "a@b.com", "").1, 1);
    assert_eq!(register(&mut ledger, "bob_0002", "b@c.org", "").1, 2);
    assert_eq!(register(&mut ledger, "carol_03", "c@d.net", "").1, 3);
}

#[test]
fn lookup_unknown_user_fails() {
    let ledger = Ledger::new();
    let resp = user_lookup(&ledger, RequestUserLookup { phrase: "nobody99".to_string() });
    assert!(!resp.success);
    assert_eq!(resp.uid, 0);
    assert_eq!(resp.message, "not found");
}

#[test]
fn lookup_returns_first_of_duplicate_usernames() {
    // Usernames are not unique; the first matching row wins.
    let mut ledger = Ledger::new();
    register(&mut ledger, "same_name", "a@b.com", "first");
    register(&mut ledger, "same_name", "c@d.com", "second");
    let resp = user_lookup(&ledger, RequestUserLookup { phrase: "same_name".to_string() });
    assert!(resp.success);
    assert_eq!(resp.uid, 1);
}

#[test]
fn alter_then_info_reflects_new_values() {
    let mut ledger = Ledger::new();
    register(&mut ledger, "alice_01", "a@b.com", "student");
    let altered = user_alter(
        &mut ledger,
        RequestUserAlter {
            uid: 1,
            username: "alice_02".to_string(),
            email: "a2@b.com".to_string(),
            info: "graduate".to_string(),
        },
    );
    assert!(altered.success);
    assert_eq!(altered.message, "success");

    let info = user_info(&ledger, RequestUserInfo { uid: 1 });
    assert!(info.success);
    assert_eq!(info.username, "alice_02");
    assert_eq!(info.email, "a2@b.com");
    assert_eq!(info.info, "graduate");
}

#[test]
fn alter_rejects_bad_username() {
    let mut ledger = Ledger::new();
    register(&mut ledger, "alice_01", "a@b.com", "student");
    let altered = user_alter(
        &mut ledger,
        RequestUserAlter {
            uid: 1,
            username: "no".to_string(),
            email: "a2@b.com".to_string(),
            info: "".to_string(),
        },
    );
    assert!(!altered.success);
    assert_eq!(altered.message, "username is not legit");
    let info = user_info(&ledger, RequestUserInfo { uid: 1 });
    assert_eq!(info.username, "alice_01");
    assert_eq!(info.email, "a@b.com");
}

#[test]
fn alter_missing_uid_is_noop_success() {
    // The store reports only how many rows changed, so altering an
    // unknown identifier succeeds without changing anything.
    let mut ledger = Ledger::new();
    let altered = user_alter(
        &mut ledger,
        RequestUserAlter {
            uid: 7,
            username: "ghost_user".to_string(),
            email: "g@h.io".to_string(),
            info: "".to_string(),
        },
    );
    assert!(altered.success);
    let info = user_info(&ledger, RequestUserInfo { uid: 7 });
    assert!(!info.success);
}

#[test]
fn unregister_then_info_is_not_found() {
    let mut ledger = Ledger::new();
    register(&mut ledger, "alice_01", "a@b.com", "student");
    let gone = user_unregister(&mut ledger, RequestUserUnregister { uid: 1 });
    assert!(gone.success);
    assert_eq!(gone.message, "success");

    let info = user_info(&ledger, RequestUserInfo { uid: 1 });
    assert!(!info.success);
    assert_eq!(info.message, "not found");
    assert_eq!(info.username, "");
    assert_eq!(info.email, "");
    assert_eq!(info.info, "");
}

#[test]
fn unregister_does_not_reuse_uids() {
    let mut ledger = Ledger::new();
    register(&mut ledger, "alice_01", "a@b.com", "");
    user_unregister(&mut ledger, RequestUserUnregister { uid: 1 });
    let (ok, uid, _) = register(&mut ledger, "bob_0002", "b@c.org", "");
    assert!(ok);
    assert_eq!(uid, 2);
}
