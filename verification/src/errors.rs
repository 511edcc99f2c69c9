//! The crate-wide error type: a kind that callers dispatch on, plus an
//! optional human-readable cause kept for diagnostics.

use vstd::prelude::*;

verus! {

/// Every failure the library reports, from store faults to workflow
/// conflicts in the test-session state machine.
#[derive(Debug, Copy, Clone, PartialEq, Eq, Structural)]
pub enum ErrorKind {
    Database,
    Url,
    Body,
    NotFound,
    PermissionDenied,
    GoogleSignIn,
    GoogleUserNoEmail,
    GoogleUserNotFound,
    RegisteredTwiceForSession,
    RegisteredTwiceForTest,
    RegistrationClosedForTest,
    SessionFull,
    OpenedTestNotRegistered,
    OpenedTestTwice,
    OpeningClosedForTest,
    SubmissionsClosedForTest,
    TestNotOpened,
    TestAlreadySubmitted,
    EmptySubmission,
    InsufficientQuestions,
    QuestionNotFound,
    TestNotSubmitted,
    Network,
    Io,
    Unimplemented,
}

/// The message that `Error::message` produces for each kind.
pub open spec fn spec_message(kind: ErrorKind) -> Seq<char> {
    match kind {
        ErrorKind::Database => "Database error!"@,
        ErrorKind::Url => "Url parse error!"@,
        ErrorKind::Body => "Body parse error!"@,
        ErrorKind::NotFound => "Not found!"@,
        ErrorKind::PermissionDenied => "Permission denied!"@,
        ErrorKind::GoogleSignIn => "Failed to validate Id Token with Google"@,
        ErrorKind::GoogleUserNoEmail => "Google did not provide an email"@,
        ErrorKind::GoogleUserNotFound => "The email provided by Google did not match any users' emails"@,
        ErrorKind::RegisteredTwiceForSession => "Registered twice for a test session"@,
        ErrorKind::RegisteredTwiceForTest => "Registered twice for a test"@,
        ErrorKind::RegistrationClosedForTest => "The test session is closed for registration"@,
        ErrorKind::SessionFull => "The test session is full"@,
        ErrorKind::OpenedTestNotRegistered => "Opened a test not registered for"@,
        ErrorKind::OpenedTestTwice => "Opened a test twice"@,
        ErrorKind::OpeningClosedForTest => "The test session is closed"@,
        ErrorKind::SubmissionsClosedForTest => "The test session is closed for submissions"@,
        ErrorKind::TestNotOpened => "The test was not opened"@,
        ErrorKind::TestAlreadySubmitted => "The test was already submitted"@,
        ErrorKind::EmptySubmission => "The submission contained no answers"@,
        ErrorKind::InsufficientQuestions => "A question category has too few questions"@,
        ErrorKind::QuestionNotFound => "A submitted question was not found"@,
        ErrorKind::TestNotSubmitted => "The test was not submitted"@,
        ErrorKind::Network => "There was a network problem"@,
        ErrorKind::Io => "There was an io problem"@,
        ErrorKind::Unimplemented => "Method not implemented"@,
    }
}

/// An error with its kind and, optionally, the rendered message of the
/// underlying cause.  Causes are never surfaced to callers verbatim;
/// `to_string_with_source` appends them for logs only.
#[derive(Debug)]
pub struct Error {
    pub kind: ErrorKind,
    pub source: Option<String>,
}

impl Error {
    pub fn new(kind: ErrorKind) -> (e: Error)
        ensures
            e.kind == kind,
            e.source is None,
    {
        Error { kind, source: None }
    }

    pub fn with_source(kind: ErrorKind, source: String) -> (e: Error)
        ensures
            e.kind == kind,
            e.source == Some(source),
    {
        Error { kind, source: Some(source) }
    }

    pub fn kind(&self) -> (kind: ErrorKind)
        ensures
            kind == self.kind,
    {
        self.kind
    }

    /// The human-readable description of `self.kind`.
    pub fn message(&self) -> (m: String)
        ensures
            m@ == spec_message(self.kind),
    {
        match self.kind {
            ErrorKind::Database => String::from_str("Database error!"),
            ErrorKind::Url => String::from_str("Url parse error!"),
            ErrorKind::Body => String::from_str("Body parse error!"),
            ErrorKind::NotFound => String::from_str("Not found!"),
            ErrorKind::PermissionDenied => String::from_str("Permission denied!"),
            ErrorKind::GoogleSignIn => String::from_str("Failed to validate Id Token with Google"),
            ErrorKind::GoogleUserNoEmail => String::from_str("Google did not provide an email"),
            ErrorKind::GoogleUserNotFound => String::from_str(
                "The email provided by Google did not match any users' emails",
            ),
            ErrorKind::RegisteredTwiceForSession => String::from_str(
                "Registered twice for a test session",
            ),
            ErrorKind::RegisteredTwiceForTest => String::from_str("Registered twice for a test"),
            ErrorKind::RegistrationClosedForTest => String::from_str(
                "The test session is closed for registration",
            ),
            ErrorKind::SessionFull => String::from_str("The test session is full"),
            ErrorKind::OpenedTestNotRegistered => String::from_str(
                "Opened a test not registered for",
            ),
            ErrorKind::OpenedTestTwice => String::from_str("Opened a test twice"),
            ErrorKind::OpeningClosedForTest => String::from_str("The test session is closed"),
            ErrorKind::SubmissionsClosedForTest => String::from_str(
                "The test session is closed for submissions",
            ),
            ErrorKind::TestNotOpened => String::from_str("The test was not opened"),
            ErrorKind::TestAlreadySubmitted => String::from_str("The test was already submitted"),
            ErrorKind::EmptySubmission => String::from_str("The submission contained no answers"),
            ErrorKind::InsufficientQuestions => String::from_str(
                "A question category has too few questions",
            ),
            ErrorKind::QuestionNotFound => String::from_str("A submitted question was not found"),
            ErrorKind::TestNotSubmitted => String::from_str("The test was not submitted"),
            ErrorKind::Network => String::from_str("There was a network problem"),
            ErrorKind::Io => String::from_str("There was an io problem"),
            ErrorKind::Unimplemented => String::from_str("Method not implemented"),
        }
    }

    /// The message, with the cause appended when one was recorded.
    pub fn to_string_with_source(&self) -> (m: String)
        ensures
            match self.source {
                Some(s) => m@ == spec_message(self.kind) + ":\n "@ + s@,
                None => m@ == spec_message(self.kind),
            },
    {
        let mut m = self.message();
        match &self.source {
            Some(s) => {
                m.append(":\n ");
                m.append(s.as_str());
                m
            },
            None => m,
        }
    }
}

} // verus!
