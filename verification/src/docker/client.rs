//! The rules of one HTTP exchange with the daemon: what is sent, when the
//! body of the response is read, and how what came back is classified. The
//! exchange itself is performed by the caller, who reports its outcome.

use crate::docker::ConnectionTarget;
use crate::error::EngineError;
use crate::error::Failure;
use std::path::PathBuf;
use vstd::prelude::*;

verus! {

/// The status code of an HTTP response: three digits.
#[derive(Debug, Clone, Copy)]
pub struct HttpStatus {
    code: u16,
}

impl View for HttpStatus {
    type V = u16;

    closed spec fn view(&self) -> u16 {
        self.code
    }
}

/// How the `http` crate displays the status code `code`: the number and the
/// reason phrase that goes with it. `None` where `code` is no status code.
pub uninterp spec fn status_line(code: u16) -> Option<Seq<char>>;

/// Calls `hyper::StatusCode::from_u16`, which is the `http` crate's, and
/// formats the status code with its `Display`. `from_u16` accepts exactly
/// the codes from 100 to 999.
#[verifier::external_body]
fn status_line_text(code: u16) -> (line: Option<String>)
    ensures
        line.deep_view() == status_line(code),
        line is Some <==> 100 <= code <= 999,
{
    match hyper::StatusCode::from_u16(code) {
        Ok(status) => Some(status.to_string()),
        Err(_) => None,
    }
}

impl HttpStatus {
    #[verifier::type_invariant]
    spec fn three_digits(&self) -> bool {
        100 <= self.code <= 999
    }

    /// The status with the code `code`, where `code` has three digits.
    pub fn from_u16(code: u16) -> (status: Option<HttpStatus>)
        ensures
            status is Some <==> 100 <= code <= 999,
            status matches Some(s) ==> s@ == code,
    {
        if 100 <= code && code <= 999 {
            Some(HttpStatus { code })
        } else {
            None
        }
    }

    /// The code.
    pub fn as_u16(&self) -> (code: u16)
        ensures
            code == self@,
            100 <= code <= 999,
    {
        proof {
            use_type_invariant(self);
        }
        self.code
    }

    /// Whether the status reports success.
    pub open spec fn success(code: u16) -> bool {
        200 <= code < 300
    }

    /// Whether the status reports success: a code from 200 to 299.
    pub fn is_success(&self) -> (yes: bool)
        ensures
            yes == HttpStatus::success(self@),
    {
        200 <= self.code && self.code < 300
    }
}

/// The failure that a status and the body sent with it stand for. This is
/// the one place that knows the daemon's use of status codes.
pub open spec fn classified(code: u16, body: Seq<char>) -> Failure {
    if code == 404 {
        Failure::UserActionable {
            message: "Resource not found: "@ + body,
            hint: None,
            source: None,
        }
    } else if code == 403 || code == 401 {
        Failure::UserActionable {
            message: "Permission denied"@,
            hint: Some("Check Docker socket permissions or authentication"@),
            source: None,
        }
    } else if code == 409 {
        Failure::UserActionable { message: "Conflict: "@ + body, hint: None, source: None }
    } else if code == 500 {
        Failure::Retryable { message: "Docker daemon error: "@ + body, source: None }
    } else {
        Failure::Bug {
            message: "Unexpected status "@ + status_line(code).unwrap() + ": "@ + body,
            source: None,
        }
    }
}

/// The failure that a response stands for, by its status and its body.
pub fn handle_error_response(status: HttpStatus, body: &str) -> (e: EngineError)
    ensures
        e@ == classified(status@, body@),
{
    let code = status.as_u16();
    if code == 404 {
        let mut message = "Resource not found: ".to_owned();
        message.append(body);
        EngineError::user_actionable(message.as_str(), None)
    } else if code == 403 || code == 401 {
        EngineError::user_actionable(
            "Permission denied",
            Some("Check Docker socket permissions or authentication".to_owned()),
        )
    } else if code == 409 {
        let mut message = "Conflict: ".to_owned();
        message.append(body);
        EngineError::user_actionable(message.as_str(), None)
    } else if code == 500 {
        let mut message = "Docker daemon error: ".to_owned();
        message.append(body);
        EngineError::retryable(message.as_str())
    } else {
        let mut message = "Unexpected status ".to_owned();
        let line = status_line_text(code).unwrap();
        message.append(line.as_str());
        message.append(": ");
        message.append(body);
        EngineError::bug(message.as_str())
    }
}

/// The verb of a request.
#[derive(Debug, Clone, Copy, PartialEq, Eq, Structural)]
pub enum Method {
    Get,
    Post,
    Delete,
}

/// One request to the daemon.
#[derive(Debug, Clone)]
pub struct Request {
    pub method: Method,
    /// The path and the query.
    pub path: String,
    /// What is sent as the body; nothing is sent where this is `None`.
    pub body: Option<String>,
    /// Whether the body is announced as JSON.
    pub json: bool,
    /// Whether the caller wants the body of a successful response.
    pub wants_reply: bool,
}

/// What a [`Request`] holds.
pub struct RequestView {
    pub method: Method,
    pub path: Seq<char>,
    pub body: Option<Seq<char>>,
    pub json: bool,
    pub wants_reply: bool,
}

impl DeepView for Request {
    type V = RequestView;

    open spec fn deep_view(&self) -> RequestView {
        RequestView {
            method: self.method,
            path: self.path@,
            body: self.body.deep_view(),
            json: self.json,
            wants_reply: self.wants_reply,
        }
    }
}

impl View for Request {
    type V = RequestView;

    open spec fn view(&self) -> RequestView {
        self.deep_view()
    }
}

impl Request {
    /// Whether the body of a response with this status is to be read: always
    /// where the caller wants the reply, and on every failure, whose body
    /// is never thrown away.
    pub fn reads_body(&self, status: HttpStatus) -> (read: bool)
        ensures
            read == (self.wants_reply || !HttpStatus::success(status@)),
    {
        self.wants_reply || !status.is_success()
    }
}

/// How an exchange ended, as the one who performed it reports it.
#[derive(Debug, Clone)]
pub enum Outcome {
    /// The request could not be put together.
    Unbuilt { cause: String },
    /// No response came: the socket is missing, the connection was refused
    /// or broke, or time ran out.
    Unanswered { cause: String },
    /// A response came, but its body could not be read to the end.
    Unread { cause: String },
    /// A response came; `body` is its text where the body was read.
    Answered { status: HttpStatus, body: Option<String> },
}

/// What an [`Outcome`] holds.
pub enum OutcomeView {
    Unbuilt { cause: Seq<char> },
    Unanswered { cause: Seq<char> },
    Unread { cause: Seq<char> },
    Answered { status: u16, body: Option<Seq<char>> },
}

impl DeepView for Outcome {
    type V = OutcomeView;

    open spec fn deep_view(&self) -> OutcomeView {
        match *self {
            Outcome::Unbuilt { cause } => OutcomeView::Unbuilt { cause: cause@ },
            Outcome::Unanswered { cause } => OutcomeView::Unanswered { cause: cause@ },
            Outcome::Unread { cause } => OutcomeView::Unread { cause: cause@ },
            Outcome::Answered { status, body } => OutcomeView::Answered {
                status: status@,
                body: body.deep_view(),
            },
        }
    }
}

impl View for Outcome {
    type V = OutcomeView;

    open spec fn view(&self) -> OutcomeView {
        self.deep_view()
    }
}

/// The text of a body, empty where no body was read.
pub open spec fn body_text(body: Option<Seq<char>>) -> Seq<char> {
    match body {
        Some(text) => text,
        None => Seq::empty(),
    }
}

/// What an exchange comes to: the body of a successful response, or the
/// failure that the outcome stands for.
pub open spec fn settled(outcome: OutcomeView) -> Result<Option<Seq<char>>, Failure> {
    match outcome {
        OutcomeView::Unbuilt { cause } => Err(
            Failure::Bug { message: "Failed to build request"@, source: Some(cause) },
        ),
        OutcomeView::Unanswered { cause } => Err(
            Failure::Retryable { message: "Network error"@, source: Some(cause) },
        ),
        OutcomeView::Unread { cause } => Err(
            Failure::Retryable { message: "Failed to read response body"@, source: Some(cause) },
        ),
        OutcomeView::Answered { status, body } => if HttpStatus::success(status) {
            Ok(body)
        } else {
            Err(classified(status, body_text(body)))
        },
    }
}

/// What decoding a body comes to: the value, or the failure that a body of
/// the wrong shape stands for.
pub open spec fn decoded_view<T>(parsed: Result<T, String>) -> Result<T, Failure> {
    match parsed {
        Ok(value) => Ok(value),
        Err(cause) => Err(Failure::Bug { message: "Failed to parse response"@, source: Some(cause@) }),
    }
}

/// A client of the daemon behind one Unix domain socket.
#[derive(Debug, Clone)]
pub struct DockerClient {
    socket_path: PathBuf,
}

impl DockerClient {
    /// The socket that the client speaks to.
    pub closed spec fn socket(&self) -> PathBuf {
        self.socket_path
    }

    /// A client for the daemon at `target`.
    pub fn new(target: ConnectionTarget) -> (client: Result<Self, EngineError>)
        ensures
            client matches Ok(c) && match target {
                ConnectionTarget::UnixSocket(path) => c.socket() == path,
            },
    {
        match target {
            ConnectionTarget::UnixSocket(path) => Ok(DockerClient { socket_path: path }),
        }
    }

    /// The socket that the client speaks to.
    pub fn socket_path(&self) -> (path: &PathBuf)
        ensures
            *path == self.socket(),
    {
        &self.socket_path
    }

    /// The request that reads the resource at `path` and wants its reply.
    pub fn get(&self, path: &str) -> (request: Request)
        ensures
            request@ == (RequestView {
                method: Method::Get,
                path: path@,
                body: None,
                json: false,
                wants_reply: true,
            }),
    {
        Request {
            method: Method::Get,
            path: path.to_owned(),
            body: None,
            json: false,
            wants_reply: true,
        }
    }

    /// The request that posts `body`, or an empty body, as JSON to `path`
    /// and wants the reply.
    pub fn post(&self, path: &str, body: Option<String>) -> (request: Request)
        ensures
            request@ == (RequestView {
                method: Method::Post,
                path: path@,
                body: Some(body_text(body.deep_view())),
                json: true,
                wants_reply: true,
            }),
    {
        let text = match body {
            Some(text) => text,
            None => String::new(),
        };
        Request {
            method: Method::Post,
            path: path.to_owned(),
            body: Some(text),
            json: true,
            wants_reply: true,
        }
    }

    /// The request that posts to `path` with no body and wants no reply.
    pub fn post_no_response(&self, path: &str) -> (request: Request)
        ensures
            request@ == (RequestView {
                method: Method::Post,
                path: path@,
                body: None,
                json: false,
                wants_reply: false,
            }),
    {
        Request {
            method: Method::Post,
            path: path.to_owned(),
            body: None,
            json: false,
            wants_reply: false,
        }
    }

    /// The request that deletes the resource at `path` and wants no reply.
    pub fn delete(&self, path: &str) -> (request: Request)
        ensures
            request@ == (RequestView {
                method: Method::Delete,
                path: path@,
                body: None,
                json: false,
                wants_reply: false,
            }),
    {
        Request {
            method: Method::Delete,
            path: path.to_owned(),
            body: None,
            json: false,
            wants_reply: false,
        }
    }

    /// The failure for a connection that gave no response.
    pub fn map_hyper_error(cause: String) -> (e: EngineError)
        ensures
            e@ == (Failure::Retryable { message: "Network error"@, source: Some(cause@) }),
    {
        EngineError::retryable_with_source("Network error", cause)
    }

    /// What an exchange comes to: the body of a successful response, where
    /// it was read, or the failure that the outcome stands for.
    pub fn settle(outcome: Outcome) -> (end: Result<Option<String>, EngineError>)
        ensures
            match end {
                Ok(body) => settled(outcome@) == Ok::<Option<Seq<char>>, Failure>(body.deep_view()),
                Err(e) => settled(outcome@) == Err::<Option<Seq<char>>, Failure>(e@),
            },
    {
        match outcome {
            Outcome::Unbuilt { cause } => Err(
                EngineError::bug_with_source("Failed to build request", cause),
            ),
            Outcome::Unanswered { cause } => Err(DockerClient::map_hyper_error(cause)),
            Outcome::Unread { cause } => Err(
                EngineError::retryable_with_source("Failed to read response body", cause),
            ),
            Outcome::Answered { status, body } => {
                if status.is_success() {
                    Ok(body)
                } else {
                    match body {
                        Some(text) => Err(handle_error_response(status, text.as_str())),
                        None => {
                            proof {
                                reveal_strlit("");
                                assert(""@ =~= Seq::<char>::empty());
                            }
                            Err(handle_error_response(status, ""))
                        },
                    }
                }
            },
        }
    }

    /// What decoding the body of a successful response comes to: the value,
    /// or a broken expectation with the text of what the decoder said.
    pub fn decoded<T>(parsed: Result<T, String>) -> (end: Result<T, EngineError>)
        ensures
            match end {
                Ok(value) => decoded_view(parsed) == Ok::<T, Failure>(value),
                Err(e) => decoded_view(parsed) == Err::<T, Failure>(e@),
            },
    {
        match parsed {
            Ok(value) => Ok(value),
            Err(cause) => Err(EngineError::bug_with_source("Failed to parse response", cause)),
        }
    }
}

/// The table of statuses: 404 is a resource that is not there, 401 and 403
/// a missing permission, 409 a conflict, all three for the caller to fix;
/// 500 is a passing failure of the daemon; every other status is a broken
/// expectation. The body is part of the message wherever it says what
/// went wrong.
pub proof fn lemma_status_table(code: u16, body: Seq<char>)
    ensures
        code == 404 ==> classified(code, body) == (Failure::UserActionable {
            message: "Resource not found: "@ + body,
            hint: None,
            source: None,
        }),
        code == 401 || code == 403 ==> classified(code, body) == (Failure::UserActionable {
            message: "Permission denied"@,
            hint: Some("Check Docker socket permissions or authentication"@),
            source: None,
        }),
        code == 409 ==> classified(code, body) == (Failure::UserActionable {
            message: "Conflict: "@ + body,
            hint: None,
            source: None,
        }),
        code == 500 ==> classified(code, body) == (Failure::Retryable {
            message: "Docker daemon error: "@ + body,
            source: None,
        }),
        code != 404 && code != 401 && code != 403 && code != 409 && code != 500 ==> classified(
            code,
            body,
        ) is Bug,
        classified(code, body) is UserActionable <==> code == 404 || code == 401 || code == 403
            || code == 409,
        classified(code, body) is Retryable <==> code == 500,
{
}

/// The message for a resource that is not there ends with the body of the
/// response, as it was sent.
pub proof fn lemma_not_found_keeps_body(body: Seq<char>)
    ensures
        classified(404, body) is UserActionable,
        classified(404, body).message().len() >= body.len(),
        classified(404, body).message().skip(
            classified(404, body).message().len() - body.len(),
        ) == body,
{
    let head = "Resource not found: "@;
    assert((head + body).skip(head.len() as int) =~= body);
}

/// An exchange succeeds exactly when a response came whose status reports
/// success; every other outcome is a failure.
pub proof fn lemma_settled_success(outcome: OutcomeView)
    ensures
        settled(outcome) is Ok <==> (outcome matches OutcomeView::Answered { status, .. }
            && HttpStatus::success(status)),
        outcome is Unanswered || outcome is Unread ==> settled(outcome)->Err_0 is Retryable,
        outcome is Unbuilt ==> settled(outcome)->Err_0 is Bug,
{
}

} // verus!
