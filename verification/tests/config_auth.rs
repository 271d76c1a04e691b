use portfolio_web::auth::{
    adopt_session, authorization_header, google_oauth_request, interpret_get_user,
    interpret_password_signin, storage_key, AuthError, AuthResponseError, Session, User,
};
use portfolio_web::env::{get_env_config, load_config, EnvError};

fn a_user() -> User {
    User {
        id: "uid-1".to_string(),
        email: "who@example.test".to_string(),
        is_anonymous: Some(false),
        role: Some("authenticated".to_string()),
        aud: "authenticated".to_string(),
    }
}

fn a_session() -> Session {
    Session {
        access_token: "acc".to_string(),
        refresh_token: "ref".to_string(),
        expires_in: 3600,
    }
}

#[test]
fn env_config_assembles_from_all_three_values() {
    let r = get_env_config(
        Some("projid".to_string()),
        Some("https://db.example.test".to_string()),
        Some("anon".to_string()),
    )
    .unwrap();
    assert_eq!(r.supabase_project_id, "projid");
    assert_eq!(r.supabase_url, "https://db.example.test");
    assert_eq!(r.supabase_anon_key, "anon");
}

#[test]
fn env_config_names_the_first_missing_variable() {
    let r = get_env_config(None, None, None);
    assert_eq!(
        r,
        Err(EnvError::MissingVariable("SUPABASE_PROJECT_ID".to_string()))
    );
    let r = get_env_config(Some("p".to_string()), None, Some("k".to_string()));
    assert_eq!(r, Err(EnvError::MissingVariable("SUPABASE_URL".to_string())));
    let r = get_env_config(Some("p".to_string()), Some("u".to_string()), None);
    assert_eq!(
        r,
        Err(EnvError::MissingVariable("SUPABASE_ANON_KEY".to_string()))
    );
}

#[test]
fn database_config_requires_its_variable() {
    let ok = load_config(Some("postgres://example".to_string())).unwrap();
    assert_eq!(ok.database_url, "postgres://example");
    assert_eq!(
        load_config(None),
        Err(EnvError::MissingVariable("DATABASE_URL".to_string()))
    );
}

#[test]
fn get_user_error_means_no_user() {
    assert!(interpret_get_user(Some(a_user()), Some(AuthError {})).is_none());
}

#[test]
fn get_user_passes_the_user_through() {
    let r = interpret_get_user(Some(a_user()), None);
    assert_eq!(r.unwrap().id, "uid-1");
    assert!(interpret_get_user(None, None).is_none());
}

#[test]
fn password_signin_succeeds_with_user_and_session() {
    let r = interpret_password_signin(Some(a_user()), Some(a_session()), None).unwrap();
    assert_eq!(r.user.email, "who@example.test");
    assert_eq!(r.session.access_token, "acc");
}

#[test]
fn password_signin_fails_on_error_or_missing_parts() {
    assert!(interpret_password_signin(
        Some(a_user()),
        Some(a_session()),
        Some(AuthResponseError {})
    )
    .is_err());
    assert!(interpret_password_signin(None, Some(a_session()), None).is_err());
    assert!(interpret_password_signin(Some(a_user()), None, None).is_err());
}

#[test]
fn adopted_session_keeps_the_token_pair() {
    let s = adopt_session("acc".to_string(), "ref".to_string());
    assert_eq!(s.access_token, "acc");
    assert_eq!(s.refresh_token, "ref");
    assert_eq!(s.expires_in, 0);
}

#[test]
fn storage_key_embeds_the_project_id() {
    assert_eq!(storage_key("myproj"), "sb-myproj-auth-token");
}

#[test]
fn authorization_header_carries_the_access_token() {
    let h = authorization_header(&Some(a_session())).unwrap();
    assert_eq!(h.0, "Authorization");
    assert_eq!(h.1, "Bearer acc");
    assert!(authorization_header(&None).is_none());
}

#[test]
fn google_signin_targets_the_callback() {
    let r = google_oauth_request();
    assert_eq!(r.provider, "google");
    assert_eq!(r.options.redirect_to, "http://localhost:8081/callback");
}
