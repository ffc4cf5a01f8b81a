use admissions_core::guards::AdminOrApplicant;
use admissions_core::guards::AdminOrProfessor;
use admissions_core::guards::Administrator;
use admissions_core::guards::Applicant;
use admissions_core::guards::Forbidden;
use admissions_core::guards::LoggedIn;
use admissions_core::guards::Professor;
use admissions_core::guards::SessionType;
use admissions_core::session::SessionStore;

#[test]
fn fresh_session_is_accepted_until_expiry() {
    let mut store = SessionStore::new();
    store.insert("tok-a".to_string(), SessionType::Applicant(7), 1_000);
    assert_eq!(store.authenticate("tok-a", 999), Some(SessionType::Applicant(7)));
    assert_eq!(store.authenticate("tok-a", 1_000), Some(SessionType::Applicant(7)));
}

#[test]
fn unknown_token_is_rejected() {
    let mut store = SessionStore::new();
    assert_eq!(store.authenticate("never-issued", 0), None);
}

#[test]
fn expired_token_is_rejected_and_deleted() {
    let mut store = SessionStore::new();
    store.insert("tok-b".to_string(), SessionType::Professor(3), 1_000);
    // The rejecting lookup deletes the entry...
    assert_eq!(store.authenticate("tok-b", 1_001), None);
    assert_eq!(store.session_type_of("tok-b"), None);
    // ...and a second lookup never resurrects it, even at an earlier time.
    assert_eq!(store.authenticate("tok-b", 999), None);
    assert_eq!(store.session_type_of("tok-b"), None);
}

#[test]
fn expired_token_is_rejected_by_every_guard() {
    for kind in [
        SessionType::Applicant(1),
        SessionType::Professor(2),
        SessionType::Administrator,
    ] {
        let mut store = SessionStore::new();
        store.insert("tok-c".to_string(), kind, 50);
        assert_eq!(LoggedIn::from_session(&mut store, "tok-c", 51), Err(Forbidden));
        let mut store = SessionStore::new();
        store.insert("tok-c".to_string(), kind, 50);
        assert_eq!(Administrator::from_session(&mut store, "tok-c", 51), Err(Forbidden));
        let mut store = SessionStore::new();
        store.insert("tok-c".to_string(), kind, 50);
        assert_eq!(Applicant::from_session(&mut store, "tok-c", 51), Err(Forbidden));
        let mut store = SessionStore::new();
        store.insert("tok-c".to_string(), kind, 50);
        assert_eq!(Professor::from_session(&mut store, "tok-c", 51), Err(Forbidden));
        let mut store = SessionStore::new();
        store.insert("tok-c".to_string(), kind, 50);
        assert_eq!(AdminOrApplicant::from_session(&mut store, "tok-c", 51), Err(Forbidden));
        let mut store = SessionStore::new();
        store.insert("tok-c".to_string(), kind, 50);
        assert_eq!(AdminOrProfessor::from_session(&mut store, "tok-c", 51), Err(Forbidden));
    }
}

#[test]
fn distinct_tokens_do_not_displace_each_other() {
    let mut store = SessionStore::new();
    store.insert("tok-one".to_string(), SessionType::Applicant(1), 100);
    store.insert("tok-two".to_string(), SessionType::Professor(2), 200);
    store.insert("tok-three".to_string(), SessionType::Administrator, 300);
    assert_eq!(store.authenticate("tok-one", 10), Some(SessionType::Applicant(1)));
    assert_eq!(store.authenticate("tok-two", 10), Some(SessionType::Professor(2)));
    assert_eq!(store.authenticate("tok-three", 10), Some(SessionType::Administrator));
}

#[test]
fn same_token_last_writer_wins() {
    let mut store = SessionStore::new();
    store.insert("tok-dup".to_string(), SessionType::Applicant(1), 100);
    store.insert("tok-dup".to_string(), SessionType::Professor(9), 200);
    assert_eq!(store.authenticate("tok-dup", 10), Some(SessionType::Professor(9)));
}

#[test]
fn remove_makes_token_invalid() {
    let mut store = SessionStore::new();
    store.insert("tok-r".to_string(), SessionType::Administrator, 100);
    store.remove("tok-r");
    assert_eq!(store.authenticate("tok-r", 10), None);
}

#[test]
fn session_type_of_ignores_expiry() {
    let store_time: i64 = 1_000;
    let mut store = SessionStore::new();
    store.insert("tok-s".to_string(), SessionType::Applicant(4), store_time);
    // Introspection reports the bound principal even after expiry, as long
    // as no guard lookup has deleted the entry.
    assert_eq!(store.session_type_of("tok-s"), Some(SessionType::Applicant(4)));
}
