//! The three kinds of failure that every operation reports.

use vstd::prelude::*;

verus! {

/// A failure, classified by what the caller can do about it.
#[derive(Debug, Clone)]
pub enum EngineError {
    /// The caller can fix it: a wrong id, a missing permission, a conflict,
    /// a capability that is not there.
    UserActionable { message: String, hint: Option<String>, source: Option<String> },
    /// A passing condition; the same call may succeed later.
    Retryable { message: String, source: Option<String> },
    /// A broken expectation inside the client or in what the daemon sent.
    Bug { message: String, source: Option<String> },
}

/// What an [`EngineError`] says, as plain text.
pub enum Failure {
    UserActionable { message: Seq<char>, hint: Option<Seq<char>>, source: Option<Seq<char>> },
    Retryable { message: Seq<char>, source: Option<Seq<char>> },
    Bug { message: Seq<char>, source: Option<Seq<char>> },
}

impl Failure {
    /// The message of the failure, of whatever kind.
    pub open spec fn message(self) -> Seq<char> {
        match self {
            Failure::UserActionable { message, .. } => message,
            Failure::Retryable { message, .. } => message,
            Failure::Bug { message, .. } => message,
        }
    }
}

impl DeepView for EngineError {
    type V = Failure;

    open spec fn deep_view(&self) -> Failure {
        match *self {
            EngineError::UserActionable { message, hint, source } => Failure::UserActionable {
                message: message@,
                hint: hint.deep_view(),
                source: source.deep_view(),
            },
            EngineError::Retryable { message, source } => Failure::Retryable {
                message: message@,
                source: source.deep_view(),
            },
            EngineError::Bug { message, source } => Failure::Bug {
                message: message@,
                source: source.deep_view(),
            },
        }
    }
}

impl View for EngineError {
    type V = Failure;

    open spec fn view(&self) -> Failure {
        self.deep_view()
    }
}

impl EngineError {
    /// A failure the caller can fix, with an optional hint at the remedy.
    pub fn user_actionable(message: &str, hint: Option<String>) -> (e: Self)
        ensures
            e@ == (Failure::UserActionable {
                message: message@,
                hint: hint.deep_view(),
                source: None,
            }),
    {
        EngineError::UserActionable { message: message.to_owned(), hint, source: None }
    }

    /// A failure the caller can fix, with the text of what caused it.
    pub fn user_actionable_with_source(message: &str, hint: Option<String>, source: String) -> (e:
        Self)
        ensures
            e@ == (Failure::UserActionable {
                message: message@,
                hint: hint.deep_view(),
                source: Some(source@),
            }),
    {
        EngineError::UserActionable { message: message.to_owned(), hint, source: Some(source) }
    }

    /// A passing failure.
    pub fn retryable(message: &str) -> (e: Self)
        ensures
            e@ == (Failure::Retryable { message: message@, source: None }),
    {
        EngineError::Retryable { message: message.to_owned(), source: None }
    }

    /// A passing failure, with the text of what caused it.
    pub fn retryable_with_source(message: &str, source: String) -> (e: Self)
        ensures
            e@ == (Failure::Retryable { message: message@, source: Some(source@) }),
    {
        EngineError::Retryable { message: message.to_owned(), source: Some(source) }
    }

    /// A broken expectation.
    pub fn bug(message: &str) -> (e: Self)
        ensures
            e@ == (Failure::Bug { message: message@, source: None }),
    {
        EngineError::Bug { message: message.to_owned(), source: None }
    }

    /// A broken expectation, with the text of what caused it.
    pub fn bug_with_source(message: &str, source: String) -> (e: Self)
        ensures
            e@ == (Failure::Bug { message: message@, source: Some(source@) }),
    {
        EngineError::Bug { message: message.to_owned(), source: Some(source) }
    }

    /// The message, which is what the error shows when it is displayed.
    pub fn to_string(&self) -> (text: String)
        ensures
            text@ == self@.message(),
    {
        match self {
            EngineError::UserActionable { message, .. } => message.clone(),
            EngineError::Retryable { message, .. } => message.clone(),
            EngineError::Bug { message, .. } => message.clone(),
        }
    }

    /// The hint at a remedy, which only a failure the caller can fix may
    /// carry.
    pub fn hint(&self) -> (hint: Option<&String>)
        ensures
            hint.deep_view() == match self@ {
                Failure::UserActionable { hint, .. } => hint,
                _ => None,
            },
    {
        match self {
            EngineError::UserActionable { hint, .. } => hint.as_ref(),
            _ => None,
        }
    }
}

} // verus!
