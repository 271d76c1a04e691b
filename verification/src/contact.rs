//! Contact submissions: form validation, assembly of the submission
//! to insert, and interpretation of the insert response. The POST
//! itself happens outside the crate.

use vstd::prelude::*;

use crate::errors::{DataError, is_success, spec_is_success};
use crate::text::{contains_char, is_blank, spec_contains, spec_is_blank};

verus! {

/// Metadata stamped onto a submission: where it came from and when.
#[derive(Debug, PartialEq, Eq)]
pub struct SubmissionMetadata {
    pub source: String,
    pub timestamp: String,
}

/// A stored contact submission as the service returns it.
#[derive(Debug, PartialEq, Eq)]
pub struct ContactSubmission {
    pub id: Option<String>,
    pub name: String,
    pub email: String,
    pub message: String,
    pub created_at: Option<String>,
    pub ip_address: Option<String>,
    pub user_agent: Option<String>,
    pub subject: Option<String>,
    pub status: Option<String>,
    pub metadata: Option<SubmissionMetadata>,
}

/// A submission to insert.
#[derive(Debug, PartialEq, Eq)]
pub struct NewContactSubmission {
    pub name: String,
    pub email: String,
    pub message: String,
    pub ip_address: Option<String>,
    pub user_agent: Option<String>,
    pub subject: Option<String>,
    pub metadata: Option<SubmissionMetadata>,
}

impl vstd::std_specs::convert::FromSpecImpl<ContactSubmission> for NewContactSubmission {
    open spec fn obeys_from_spec() -> bool {
        true
    }

    open spec fn from_spec(submission: ContactSubmission) -> NewContactSubmission {
        NewContactSubmission {
            name: submission.name,
            email: submission.email,
            message: submission.message,
            ip_address: submission.ip_address,
            user_agent: submission.user_agent,
            subject: submission.subject,
            metadata: submission.metadata,
        }
    }
}

impl From<ContactSubmission> for NewContactSubmission {
    fn from(submission: ContactSubmission) -> Self {
        NewContactSubmission {
            name: submission.name,
            email: submission.email,
            message: submission.message,
            ip_address: submission.ip_address,
            user_agent: submission.user_agent,
            subject: submission.subject,
            metadata: submission.metadata,
        }
    }
}

/// Why the form rejects input before any request is made.
#[derive(Debug, PartialEq, Eq)]
pub enum ContactFormError {
    /// A required field is empty or holds only whitespace.
    MissingField,
    /// The email address lacks an `@` or a `.`.
    InvalidEmail,
}

/// What the form's validation decides: every required field must
/// hold something besides whitespace, and the email address must
/// contain both an `@` and a `.`.
pub open spec fn spec_validate_contact_form(
    name: Seq<char>,
    email: Seq<char>,
    message: Seq<char>,
) -> Result<(), ContactFormError> {
    if spec_is_blank(name) || spec_is_blank(email) || spec_is_blank(message) {
        Err(ContactFormError::MissingField)
    } else if !spec_contains(email, '@') || !spec_contains(email, '.') {
        Err(ContactFormError::InvalidEmail)
    } else {
        Ok(())
    }
}

/// Validate the contact form before submitting it.
pub fn validate_contact_form(name: &str, email: &str, message: &str) -> (r: Result<
    (),
    ContactFormError,
>)
    ensures
        r == spec_validate_contact_form(name@, email@, message@),
{
    if is_blank(name) || is_blank(email) || is_blank(message) {
        Err(ContactFormError::MissingField)
    } else if !contains_char(email, '@') || !contains_char(email, '.') {
        Err(ContactFormError::InvalidEmail)
    } else {
        Ok(())
    }
}

/// Relies on chrono's `Utc::now` and `DateTime::to_rfc3339` for the
/// moment the submission is stamped with; nothing is promised of the
/// clock's value.
#[verifier::external_body]
fn now_rfc3339() -> String {
    chrono::Utc::now().to_rfc3339()
}

/// Assemble the submission the contact form sends, stamped with the
/// given moment: the subject and the metadata source are fixed by
/// the form, and no address is recorded.
pub fn build_submission(
    name: String,
    email: String,
    message: String,
    user_agent: Option<String>,
    timestamp: String,
) -> (s: NewContactSubmission)
    ensures
        s.name == name,
        s.email == email,
        s.message == message,
        s.ip_address is None,
        s.user_agent == user_agent,
        s.subject matches Some(t) && t@ == "Website Contact Form"@,
        s.metadata matches Some(m) && m.source@ == "website"@ && m.timestamp == timestamp,
{
    NewContactSubmission {
        name,
        email,
        message,
        ip_address: None,
        user_agent,
        subject: Some(String::from_str("Website Contact Form")),
        metadata: Some(
            SubmissionMetadata { source: String::from_str("website"), timestamp },
        ),
    }
}

/// Assemble the submission stamped with the present moment — the
/// one part of it taken from the clock.
pub fn new_submission(
    name: String,
    email: String,
    message: String,
    user_agent: Option<String>,
) -> (s: NewContactSubmission)
    ensures
        s.name == name,
        s.email == email,
        s.message == message,
        s.ip_address is None,
        s.user_agent == user_agent,
        s.subject matches Some(t) && t@ == "Website Contact Form"@,
        s.metadata matches Some(m) && m.source@ == "website"@,
{
    let timestamp = now_rfc3339();
    build_submission(name, email, message, user_agent, timestamp)
}

/// How the insert request ended: either the service answered (with
/// rows when the body echoed the stored submissions), or the
/// transport failed first.
#[derive(Debug, PartialEq, Eq)]
pub enum SubmitOutcome {
    Response { status: u16, rows: Option<Vec<ContactSubmission>> },
    TransportFailure(String),
}

/// Interpret the insert response: the service echoes the stored
/// rows, and the first of them is the submission as stored; an
/// answer echoing none at all is malformed.
pub fn submit_contact_form(outcome: SubmitOutcome) -> (r: Result<ContactSubmission, DataError>)
    ensures
        match r {
            Ok(stored) => {
                &&& outcome matches SubmitOutcome::Response { status, rows }
                &&& spec_is_success(status)
                &&& rows matches Some(rs)
                &&& rs@.len() > 0
                &&& stored == rs@[0]
            },
            Err(e) => match outcome {
                SubmitOutcome::TransportFailure(m) => e == DataError::NetworkError(m),
                SubmitOutcome::Response { status, rows } => {
                    if !spec_is_success(status) {
                        e == DataError::RemoteServiceError(status)
                    } else if rows is None {
                        e == DataError::ParseError
                    } else {
                        rows->0@.len() == 0 && e == DataError::ParseError
                    }
                },
            },
        },
{
    match outcome {
        SubmitOutcome::TransportFailure(m) => Err(DataError::NetworkError(m)),
        SubmitOutcome::Response { status, rows } => {
            if !is_success(status) {
                return Err(DataError::RemoteServiceError(status));
            }
            match rows {
                None => Err(DataError::ParseError),
                Some(mut rs) => {
                    if rs.len() == 0 {
                        Err(DataError::ParseError)
                    } else {
                        Ok(rs.remove(0))
                    }
                },
            }
        },
    }
}

} // verus!
