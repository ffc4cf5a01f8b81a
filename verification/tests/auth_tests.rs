use admissions_core::auth::AdminExistsResult;
use admissions_core::auth::CredentialStore;
use admissions_core::auth::Login;
use admissions_core::auth::LoginError;
use admissions_core::auth::ProvisionError;
use admissions_core::auth::SESSION_LIFETIME_SECONDS;
use admissions_core::auth::create_admin_login;
use admissions_core::auth::create_applicant_login;
use admissions_core::auth::create_professor_login;
use admissions_core::auth::get_admin_exists;
use admissions_core::auth::get_login_type;
use admissions_core::auth::login;
use admissions_core::auth::validate_login;
use admissions_core::guards::Administrator;
use admissions_core::guards::LoggedIn;
use admissions_core::guards::SessionTokenHeader;
use admissions_core::guards::SessionType;
use admissions_core::session::SessionStore;

fn creds(username: &str, password: &str) -> Login {
    Login { username: username.to_string(), password: password.to_string() }
}

/// A store bootstrapped with one admin account, and the admin witness.
fn bootstrapped() -> (CredentialStore, Administrator) {
    let mut store = CredentialStore::new();
    create_admin_login(&mut store, creds("root", "root-pw"), None).expect("bootstrap failed");
    (store, Administrator {})
}

#[test]
fn created_account_logs_in_and_token_is_accepted() {
    let (mut store, admin) = bootstrapped();
    create_applicant_login(&mut store, creds("ada", "ada-pw"), 5, &admin)
        .expect("account creation failed");

    let mut sessions = SessionStore::new();
    let now: i64 = 1_700_000_000;
    let resp = login(&store, &mut sessions, creds("ada", "ada-pw"), now).expect("login failed");
    assert_eq!(resp.session_token.len(), 44);
    assert!(LoggedIn::from_session(&mut sessions, resp.session_token.as_str(), now + 60).is_ok());
}

#[test]
fn login_with_wrong_password_fails_with_credential_error() {
    let (mut store, admin) = bootstrapped();
    create_applicant_login(&mut store, creds("ada", "ada-pw"), 5, &admin)
        .expect("account creation failed");

    let mut sessions = SessionStore::new();
    let r = login(&store, &mut sessions, creds("ada", "wrong-pw"), 0);
    assert!(matches!(r, Err(LoginError::CredentialError)));
    let r = login(&store, &mut sessions, creds("nobody", "ada-pw"), 0);
    assert!(matches!(r, Err(LoginError::CredentialError)));
}

#[test]
fn validate_login_resolves_each_principal_kind() {
    let (mut store, admin) = bootstrapped();
    create_applicant_login(&mut store, creds("ada", "ada-pw"), 5, &admin).unwrap();
    create_professor_login(&mut store, creds("peter", "peter-pw"), 8, &admin).unwrap();

    assert_eq!(
        validate_login(&store, "ada".to_string(), "ada-pw".to_string()),
        Ok(SessionType::Applicant(5))
    );
    assert_eq!(
        validate_login(&store, "peter".to_string(), "peter-pw".to_string()),
        Ok(SessionType::Professor(8))
    );
    assert_eq!(
        validate_login(&store, "root".to_string(), "root-pw".to_string()),
        Ok(SessionType::Administrator)
    );
}

#[test]
fn username_collision_resolves_applicant_then_professor_then_admin() {
    let (mut store, admin) = bootstrapped();
    // The same username in all three tables, each with its own password.
    create_applicant_login(&mut store, creds("dup", "as-applicant"), 1, &admin).unwrap();
    create_professor_login(&mut store, creds("dup", "as-professor"), 2, &admin).unwrap();
    create_admin_login(&mut store, creds("dup", "as-admin"), Some(&admin)).unwrap();

    // The applicant record wins whenever its password matches.
    assert_eq!(
        validate_login(&store, "dup".to_string(), "as-applicant".to_string()),
        Ok(SessionType::Applicant(1))
    );
    // With the professor's password, the applicant record rejects it and the
    // professor record is tried next.
    assert_eq!(
        validate_login(&store, "dup".to_string(), "as-professor".to_string()),
        Ok(SessionType::Professor(2))
    );
    // With the admin's password, both earlier tables reject it.
    assert_eq!(
        validate_login(&store, "dup".to_string(), "as-admin".to_string()),
        Ok(SessionType::Administrator)
    );
    // A password no record accepts fails.
    assert_eq!(
        validate_login(&store, "dup".to_string(), "as-nobody".to_string()),
        Err(LoginError::CredentialError)
    );
}

#[test]
fn admin_bootstrap_unauthenticated_only_while_no_admin_exists() {
    let mut store = CredentialStore::new();
    assert_eq!(get_admin_exists(&store), AdminExistsResult { result: false });

    // First unauthenticated creation succeeds: the bootstrap.
    create_admin_login(&mut store, creds("first", "first-pw"), None).expect("bootstrap failed");
    assert_eq!(get_admin_exists(&store), AdminExistsResult { result: true });

    // A second unauthenticated attempt must fail with Forbidden.
    let r = create_admin_login(&mut store, creds("second", "second-pw"), None);
    assert_eq!(r, Err(ProvisionError::Forbidden));
    assert_eq!(
        validate_login(&store, "second".to_string(), "second-pw".to_string()),
        Err(LoginError::CredentialError)
    );

    // An authenticated administrator may create another.
    let admin = Administrator {};
    create_admin_login(&mut store, creds("second", "second-pw"), Some(&admin))
        .expect("authenticated creation failed");
    assert_eq!(
        validate_login(&store, "second".to_string(), "second-pw".to_string()),
        Ok(SessionType::Administrator)
    );
}

#[test]
fn concurrent_style_logins_yield_distinct_simultaneously_valid_tokens() {
    let (mut store, admin) = bootstrapped();
    let n: i32 = 4;
    for i in 0..n {
        let username = format!("user-{}", i);
        let password = format!("pw-{}", i);
        create_applicant_login(&mut store, creds(&username, &password), i, &admin).unwrap();
    }

    let mut sessions = SessionStore::new();
    let now: i64 = 1_000;
    let mut tokens: Vec<String> = Vec::new();
    for i in 0..n {
        let username = format!("user-{}", i);
        let password = format!("pw-{}", i);
        let resp = login(&store, &mut sessions, creds(&username, &password), now)
            .expect("login failed");
        tokens.push(resp.session_token);
    }

    // All tokens are pairwise distinct...
    for i in 0..tokens.len() {
        for j in 0..i {
            assert_ne!(tokens[i], tokens[j]);
        }
    }
    // ...and all are simultaneously valid afterwards, each for its own user.
    for i in 0..n {
        let got = sessions.authenticate(tokens[i as usize].as_str(), now + 5);
        assert_eq!(got, Some(SessionType::Applicant(i)));
    }
}

#[test]
fn login_expiry_is_thirty_days_from_now() {
    let (store, _admin) = bootstrapped();
    let mut sessions = SessionStore::new();
    let now: i64 = 500;
    let resp = login(&store, &mut sessions, creds("root", "root-pw"), now).expect("login failed");
    let token = resp.session_token;
    assert_eq!(SESSION_LIFETIME_SECONDS, 2_592_000);
    assert_eq!(
        sessions.authenticate(token.as_str(), now + SESSION_LIFETIME_SECONDS),
        Some(SessionType::Administrator)
    );
    assert_eq!(sessions.authenticate(token.as_str(), now + SESSION_LIFETIME_SECONDS + 1), None);
}

#[test]
fn introspection_reports_own_role_or_nothing() {
    let (store, _admin) = bootstrapped();
    let mut sessions = SessionStore::new();
    let resp = login(&store, &mut sessions, creds("root", "root-pw"), 0).expect("login failed");

    let reported = get_login_type(
        &sessions,
        Some(SessionTokenHeader { session_token: resp.session_token }),
    );
    assert_eq!(reported.session_type, Some(SessionType::Administrator));

    let unknown = get_login_type(
        &sessions,
        Some(SessionTokenHeader { session_token: "no-such-token".to_string() }),
    );
    assert_eq!(unknown.session_type, None);

    let absent = get_login_type(&sessions, None);
    assert_eq!(absent.session_type, None);
}
