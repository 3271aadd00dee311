//! What the operations of an engine exchange besides the resources
//! themselves: log events and options, exec requests, and the description
//! of the daemon.

use crate::time::Timestamp;
use vstd::prelude::*;

verus! {

/// The stream that a log line was written to.
#[derive(Debug, Clone, Copy, PartialEq, Eq, Structural)]
pub enum LogStream {
    Stdout,
    Stderr,
}

impl DeepView for LogStream {
    type V = LogStream;

    open spec fn deep_view(&self) -> LogStream {
        *self
    }
}

/// One line of a container's log.
#[derive(Debug, Clone)]
pub struct LogEvent {
    pub timestamp: Option<Timestamp>,
    pub stream: LogStream,
    pub line: String,
}

/// What a [`LogEvent`] holds.
pub struct LogEventView {
    pub timestamp: Option<Timestamp>,
    pub stream: LogStream,
    pub line: Seq<char>,
}

impl DeepView for LogEvent {
    type V = LogEventView;

    open spec fn deep_view(&self) -> LogEventView {
        LogEventView {
            timestamp: self.timestamp,
            stream: self.stream,
            line: self.line@,
        }
    }
}

impl View for LogEvent {
    type V = LogEventView;

    open spec fn view(&self) -> LogEventView {
        self.deep_view()
    }
}

/// Which part of a log is asked for.
#[derive(Debug, Clone)]
pub struct LogOpts {
    pub follow: bool,
    pub since: Option<Timestamp>,
    pub timestamps: bool,
    pub tail: Option<usize>,
}

impl Default for LogOpts {
    fn default() -> (opts: LogOpts)
        ensures
            !opts.follow,
            opts.since is None,
            !opts.timestamps,
            opts.tail is None,
    {
        LogOpts { follow: false, since: None, timestamps: false, tail: None }
    }
}

/// A command to run inside a container.
#[derive(Debug, Clone)]
pub struct ExecSpec {
    pub cmd: Vec<String>,
    pub tty: bool,
    pub attach_stdin: bool,
    pub env: Vec<String>,
    pub user: Option<String>,
}

/// What an [`ExecSpec`] holds.
pub struct ExecSpecView {
    pub cmd: Seq<Seq<char>>,
    pub tty: bool,
    pub attach_stdin: bool,
    pub env: Seq<Seq<char>>,
    pub user: Option<Seq<char>>,
}

impl DeepView for ExecSpec {
    type V = ExecSpecView;

    open spec fn deep_view(&self) -> ExecSpecView {
        ExecSpecView {
            cmd: self.cmd.deep_view(),
            tty: self.tty,
            attach_stdin: self.attach_stdin,
            env: self.env.deep_view(),
            user: self.user.deep_view(),
        }
    }
}

impl View for ExecSpec {
    type V = ExecSpecView;

    open spec fn view(&self) -> ExecSpecView {
        self.deep_view()
    }
}

/// The handle of a prepared exec session.
#[derive(Debug, Clone)]
pub struct ExecHandle {
    pub id: String,
}

/// What an [`ExecHandle`] holds.
pub struct ExecHandleView {
    pub id: Seq<char>,
}

impl DeepView for ExecHandle {
    type V = ExecHandleView;

    open spec fn deep_view(&self) -> ExecHandleView {
        ExecHandleView {
            id: self.id@,
        }
    }
}

impl View for ExecHandle {
    type V = ExecHandleView;

    open spec fn view(&self) -> ExecHandleView {
        self.deep_view()
    }
}

/// What a daemon says of itself.
#[derive(Debug, Clone)]
pub struct EngineInfo {
    pub version: String,
    pub api_version: String,
    pub os: String,
    pub arch: String,
}

/// What an [`EngineInfo`] holds.
pub struct EngineInfoView {
    pub version: Seq<char>,
    pub api_version: Seq<char>,
    pub os: Seq<char>,
    pub arch: Seq<char>,
}

impl DeepView for EngineInfo {
    type V = EngineInfoView;

    open spec fn deep_view(&self) -> EngineInfoView {
        EngineInfoView {
            version: self.version@,
            api_version: self.api_version@,
            os: self.os@,
            arch: self.arch@,
        }
    }
}

impl View for EngineInfo {
    type V = EngineInfoView;

    open spec fn view(&self) -> EngineInfoView {
        self.deep_view()
    }
}

} // verus!
