use admissions_core::guards::AdminOrApplicant;
use admissions_core::guards::AdminOrProfessor;
use admissions_core::guards::Administrator;
use admissions_core::guards::Applicant;
use admissions_core::guards::Forbidden;
use admissions_core::guards::LoggedIn;
use admissions_core::guards::Professor;
use admissions_core::guards::SessionType;
use admissions_core::session::SessionStore;

#[test]
fn admin_capability_can_access_any_applicant() {
    let g = AdminOrApplicant::Admin;
    assert!(g.can_access_applicant(0));
    assert!(g.can_access_applicant(42));
    assert!(g.can_access_applicant(-17));
    assert!(g.can_access_applicant(i32::MAX));
}

#[test]
fn applicant_capability_can_access_only_itself() {
    let g = AdminOrApplicant::Applicant(42);
    assert!(g.can_access_applicant(42));
    assert!(!g.can_access_applicant(41));
    assert!(!g.can_access_applicant(0));
    assert!(!g.can_access_applicant(-42));
}

#[test]
fn admin_capability_can_access_any_professor() {
    let g = AdminOrProfessor::Admin;
    assert!(g.can_access_prof(0));
    assert!(g.can_access_prof(7));
    assert!(g.can_access_prof(i32::MIN));
}

#[test]
fn professor_capability_can_access_only_itself() {
    let g = AdminOrProfessor::Professor(7);
    assert!(g.can_access_prof(7));
    assert!(!g.can_access_prof(8));
    assert!(!g.can_access_prof(-7));
}

fn store_with_all_three() -> SessionStore {
    let mut store = SessionStore::new();
    store.insert("tok-app".to_string(), SessionType::Applicant(11), 1_000);
    store.insert("tok-prof".to_string(), SessionType::Professor(22), 1_000);
    store.insert("tok-admin".to_string(), SessionType::Administrator, 1_000);
    store
}

#[test]
fn typed_guards_match_only_their_variant() {
    let mut store = store_with_all_three();
    assert_eq!(
        Applicant::from_session(&mut store, "tok-app", 10),
        Ok(Applicant { applicant_id: 11 })
    );
    assert_eq!(Applicant::from_session(&mut store, "tok-prof", 10), Err(Forbidden));
    assert_eq!(Applicant::from_session(&mut store, "tok-admin", 10), Err(Forbidden));

    assert_eq!(
        Professor::from_session(&mut store, "tok-prof", 10),
        Ok(Professor { professor_id: 22 })
    );
    assert_eq!(Professor::from_session(&mut store, "tok-app", 10), Err(Forbidden));

    assert_eq!(
        Administrator::from_session(&mut store, "tok-admin", 10),
        Ok(Administrator {})
    );
    assert_eq!(Administrator::from_session(&mut store, "tok-app", 10), Err(Forbidden));
}

#[test]
fn logged_in_accepts_every_variant_and_rejects_unknown() {
    let mut store = store_with_all_three();
    assert_eq!(LoggedIn::from_session(&mut store, "tok-app", 10), Ok(LoggedIn {}));
    assert_eq!(LoggedIn::from_session(&mut store, "tok-prof", 10), Ok(LoggedIn {}));
    assert_eq!(LoggedIn::from_session(&mut store, "tok-admin", 10), Ok(LoggedIn {}));
    assert_eq!(LoggedIn::from_session(&mut store, "tok-none", 10), Err(Forbidden));
}

#[test]
fn composite_guards_prefer_admin_then_typed_variant() {
    let mut store = store_with_all_three();
    assert_eq!(
        AdminOrApplicant::from_session(&mut store, "tok-admin", 10),
        Ok(AdminOrApplicant::Admin)
    );
    assert_eq!(
        AdminOrApplicant::from_session(&mut store, "tok-app", 10),
        Ok(AdminOrApplicant::Applicant(11))
    );
    assert_eq!(
        AdminOrApplicant::from_session(&mut store, "tok-prof", 10),
        Err(Forbidden)
    );

    assert_eq!(
        AdminOrProfessor::from_session(&mut store, "tok-admin", 10),
        Ok(AdminOrProfessor::Admin)
    );
    assert_eq!(
        AdminOrProfessor::from_session(&mut store, "tok-prof", 10),
        Ok(AdminOrProfessor::Professor(22))
    );
    assert_eq!(
        AdminOrProfessor::from_session(&mut store, "tok-app", 10),
        Err(Forbidden)
    );
}
