use portfolio_web::contact::{
    build_submission, new_submission, submit_contact_form, validate_contact_form,
    ContactFormError, ContactSubmission, NewContactSubmission, SubmitOutcome,
};
use portfolio_web::errors::DataError;

fn stored(name: &str) -> ContactSubmission {
    ContactSubmission {
        id: Some("42".to_string()),
        name: name.to_string(),
        email: "who@example.test".to_string(),
        message: "Hello there".to_string(),
        created_at: Some("2024-05-01T00:00:00Z".to_string()),
        ip_address: None,
        user_agent: None,
        subject: Some("Website Contact Form".to_string()),
        status: Some("new".to_string()),
        metadata: None,
    }
}

#[test]
fn validation_accepts_a_complete_form() {
    assert_eq!(
        validate_contact_form("Ada", "ada@example.test", "Hi!"),
        Ok(())
    );
}

#[test]
fn validation_rejects_blank_required_fields() {
    assert_eq!(
        validate_contact_form("   ", "ada@example.test", "Hi!"),
        Err(ContactFormError::MissingField)
    );
    assert_eq!(
        validate_contact_form("Ada", "", "Hi!"),
        Err(ContactFormError::MissingField)
    );
    assert_eq!(
        validate_contact_form("Ada", "ada@example.test", "\t\n"),
        Err(ContactFormError::MissingField)
    );
}

#[test]
fn validation_rejects_an_implausible_email() {
    assert_eq!(
        validate_contact_form("Ada", "ada.example.test", "Hi!"),
        Err(ContactFormError::InvalidEmail)
    );
    assert_eq!(
        validate_contact_form("Ada", "ada@example", "Hi!"),
        Err(ContactFormError::InvalidEmail)
    );
}

#[test]
fn built_submission_carries_the_form_and_the_stamp() {
    let s = build_submission(
        "Ada".to_string(),
        "ada@example.test".to_string(),
        "Hi!".to_string(),
        Some("agent/1.0".to_string()),
        "2024-05-01T12:00:00+00:00".to_string(),
    );
    assert_eq!(s.name, "Ada");
    assert_eq!(s.email, "ada@example.test");
    assert_eq!(s.message, "Hi!");
    assert_eq!(s.ip_address, None);
    assert_eq!(s.user_agent.as_deref(), Some("agent/1.0"));
    assert_eq!(s.subject.as_deref(), Some("Website Contact Form"));
    let m = s.metadata.unwrap();
    assert_eq!(m.source, "website");
    assert_eq!(m.timestamp, "2024-05-01T12:00:00+00:00");
}

#[test]
fn fresh_submission_is_stamped_with_the_clock() {
    let s = new_submission(
        "Ada".to_string(),
        "ada@example.test".to_string(),
        "Hi!".to_string(),
        None,
    );
    let m = s.metadata.unwrap();
    assert_eq!(m.source, "website");
    // The clock's value cannot be pinned down, but an RFC 3339 stamp
    // is never empty and always carries a date separator.
    assert!(m.timestamp.contains('-'));
}

#[test]
fn submit_returns_the_first_echoed_row() {
    let outcome = SubmitOutcome::Response {
        status: 201,
        rows: Some(vec![stored("Ada"), stored("Bob")]),
    };
    let r = submit_contact_form(outcome).unwrap();
    assert_eq!(r.name, "Ada");
    assert_eq!(r.id.as_deref(), Some("42"));
}

#[test]
fn submit_with_no_echoed_row_is_a_fault() {
    let outcome = SubmitOutcome::Response { status: 201, rows: Some(vec![]) };
    assert_eq!(submit_contact_form(outcome), Err(DataError::ParseError));
}

#[test]
fn submit_failures_map_to_the_taxonomy() {
    assert_eq!(
        submit_contact_form(SubmitOutcome::Response { status: 401, rows: None }),
        Err(DataError::RemoteServiceError(401))
    );
    assert_eq!(
        submit_contact_form(SubmitOutcome::TransportFailure("timed out".to_string())),
        Err(DataError::NetworkError("timed out".to_string()))
    );
    assert_eq!(
        submit_contact_form(SubmitOutcome::Response { status: 201, rows: None }),
        Err(DataError::ParseError)
    );
}

#[test]
fn resubmission_shape_drops_the_stored_only_fields() {
    let again = NewContactSubmission::from(stored("Ada"));
    assert_eq!(again.name, "Ada");
    assert_eq!(again.email, "who@example.test");
    assert_eq!(again.subject.as_deref(), Some("Website Contact Form"));
    assert_eq!(again.metadata, None);
}
