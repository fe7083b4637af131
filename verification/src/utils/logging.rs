//! Structured log lines.
//!
//! The logger decides whether an event is logged and what the line looks
//! like; writing the line out is left to the caller.

use vstd::prelude::*;
use vstd::string::*;
use crate::json::{json_object_rendered, JsonFieldView, JsonObject};

verus! {

/// Log level.
#[derive(Debug, Clone, Copy, PartialEq, Eq, Structural)]
pub enum LogLevel {
    /// Trace level (most verbose).
    Trace,
    /// Debug level.
    Debug,
    /// Info level.
    Info,
    /// Warn level.
    Warn,
    /// Error level.
    Error,
}

impl LogLevel {
    /// The rank of the level, from the most verbose up.
    pub open spec fn rank(self) -> int {
        match self {
            LogLevel::Trace => 0,
            LogLevel::Debug => 1,
            LogLevel::Info => 2,
            LogLevel::Warn => 3,
            LogLevel::Error => 4,
        }
    }

    /// The name of the level in a plain line.
    pub open spec fn label(self) -> Seq<char> {
        match self {
            LogLevel::Trace => "TRACE"@,
            LogLevel::Debug => "DEBUG"@,
            LogLevel::Info => "INFO"@,
            LogLevel::Warn => "WARN"@,
            LogLevel::Error => "ERROR"@,
        }
    }

    /// The name of the level in a JSON line.
    pub open spec fn name(self) -> Seq<char> {
        match self {
            LogLevel::Trace => "Trace"@,
            LogLevel::Debug => "Debug"@,
            LogLevel::Info => "Info"@,
            LogLevel::Warn => "Warn"@,
            LogLevel::Error => "Error"@,
        }
    }

    /// The rank of the level, from the most verbose up.
    pub fn as_rank(&self) -> (rank: u8)
        ensures
            rank == self.rank(),
    {
        match self {
            LogLevel::Trace => 0,
            LogLevel::Debug => 1,
            LogLevel::Info => 2,
            LogLevel::Warn => 3,
            LogLevel::Error => 4,
        }
    }

    /// What `to_string()` gives: the name in capitals.
    pub fn to_text(&self) -> (text: &'static str)
        ensures
            text@ == self.label(),
    {
        match self {
            LogLevel::Trace => "TRACE",
            LogLevel::Debug => "DEBUG",
            LogLevel::Info => "INFO",
            LogLevel::Warn => "WARN",
            LogLevel::Error => "ERROR",
        }
    }

    /// The name of the level in a JSON line.
    pub fn to_name(&self) -> (text: &'static str)
        ensures
            text@ == self.name(),
    {
        match self {
            LogLevel::Trace => "Trace",
            LogLevel::Debug => "Debug",
            LogLevel::Info => "Info",
            LogLevel::Warn => "Warn",
            LogLevel::Error => "Error",
        }
    }
}

/// Structured log entry.
#[derive(Debug, Clone, PartialEq, Eq)]
pub struct LogEntry {
    /// Service name.
    pub service: String,
    /// Log level.
    pub level: LogLevel,
    /// Log message.
    pub message: String,
    /// Timestamp (ISO 8601).
    pub timestamp: String,
    /// Request ID for tracing.
    pub request_id: Option<String>,
    /// Additional context data, as text.
    pub context: Option<String>,
}

/// Logger configuration.
#[derive(Debug, Clone, PartialEq, Eq)]
pub struct LoggerConfig {
    /// Service name.
    pub service_name: String,
    /// Minimum log level.
    pub min_level: LogLevel,
    /// Enable JSON output.
    pub json_output: bool,
}

/// Structured logger.
#[derive(Debug, Clone, PartialEq, Eq)]
pub struct Logger {
    /// Logger configuration.
    pub config: LoggerConfig,
}

/// ` name=value` where there is a value, else nothing.
pub open spec fn optional_part(name: Seq<char>, value: Option<Seq<char>>) -> Seq<char> {
    match value {
        Some(text) => " "@ + name + "="@ + text,
        None => Seq::<char>::empty(),
    }
}

/// What a log entry says, as texts.
pub struct LogEntryView {
    pub service: Seq<char>,
    pub level: LogLevel,
    pub message: Seq<char>,
    pub timestamp: Seq<char>,
    pub request_id: Option<Seq<char>>,
    pub context: Option<Seq<char>>,
}

impl LogEntryView {
    /// The entry as a plain line:
    /// `[timestamp] [service] [LEVEL] request_id=.. context=.. message`,
    /// where the two parts in the middle stand only if they have a value.
    pub open spec fn plain_line(self) -> Seq<char> {
        "["@ + self.timestamp + "] ["@ + self.service + "] ["@ + self.level.label() + "]"@
            + optional_part("request_id"@, self.request_id) + optional_part(
            "context"@,
            self.context,
        ) + " "@ + self.message
    }

    /// The members of the entry as a JSON object; the request id and the
    /// context are left out where they have no value.
    pub open spec fn json_entries(self) -> Seq<(Seq<char>, JsonFieldView)> {
        let fixed = seq![
            ("service"@, JsonFieldView::Text(self.service)),
            ("level"@, JsonFieldView::Text(self.level.name())),
            ("message"@, JsonFieldView::Text(self.message)),
            ("timestamp"@, JsonFieldView::Text(self.timestamp)),
        ];
        let with_id = match self.request_id {
            Some(id) => fixed.push(("request_id"@, JsonFieldView::Text(id))),
            None => fixed,
        };
        match self.context {
            Some(context) => with_id.push(("context"@, JsonFieldView::Text(context))),
            None => with_id,
        }
    }

    /// The line that is written for the entry.
    pub open spec fn line(self, json_output: bool) -> Seq<char> {
        if json_output {
            json_object_rendered(self.json_entries())
        } else {
            self.plain_line()
        }
    }
}

impl View for LogEntry {
    type V = LogEntryView;

    open spec fn view(&self) -> LogEntryView {
        LogEntryView {
            service: self.service@,
            level: self.level,
            message: self.message@,
            timestamp: self.timestamp@,
            request_id: self.request_id.deep_view(),
            context: self.context.deep_view(),
        }
    }
}

impl LogEntry {
    /// The entry as a plain line.
    pub fn to_plain_line(&self) -> (line: String)
        ensures
            line@ == self@.plain_line(),
    {
        let mut line = String::from_str("[");
        line.append(self.timestamp.as_str());
        line.append("] [");
        line.append(self.service.as_str());
        line.append("] [");
        line.append(self.level.to_text());
        line.append("]");
        if let Some(id) = &self.request_id {
            line.append(" ");
            line.append("request_id");
            line.append("=");
            line.append(id.as_str());
        }
        if let Some(context) = &self.context {
            line.append(" ");
            line.append("context");
            line.append("=");
            line.append(context.as_str());
        }
        line.append(" ");
        line.append(self.message.as_str());
        assert(line@ =~= self@.plain_line());
        line
    }

    /// The entry as a line of JSON.
    pub fn to_json_line(&self) -> (line: String)
        ensures
            line@ == json_object_rendered(self@.json_entries()),
    {
        let mut obj = JsonObject::new();
        obj.put_text("service", self.service.as_str());
        obj.put_text("level", self.level.to_name());
        obj.put_text("message", self.message.as_str());
        obj.put_text("timestamp", self.timestamp.as_str());
        if let Some(id) = &self.request_id {
            obj.put_text("request_id", id.as_str());
        }
        if let Some(context) = &self.context {
            obj.put_text("context", context.as_str());
        }
        assert(obj.entries() =~= self@.json_entries());
        obj.render()
    }
}

impl Logger {
    /// Create a new logger.
    pub fn new(config: LoggerConfig) -> (logger: Logger)
        ensures
            logger.config == config,
    {
        Logger { config }
    }

    /// Whether an event of `level` is logged: its level must not be below
    /// the configured minimum.
    pub open spec fn logs(&self, level: LogLevel) -> bool {
        level.rank() >= self.config.min_level.rank()
    }

    /// The entry for an event.
    pub open spec fn entry_for(
        &self,
        level: LogLevel,
        message: Seq<char>,
        request_id: Option<Seq<char>>,
        context: Option<Seq<char>>,
        timestamp: Seq<char>,
    ) -> LogEntryView {
        LogEntryView {
            service: self.config.service_name@,
            level,
            message,
            timestamp,
            request_id,
            context,
        }
    }

    /// The line that is written for an event, if one is.
    pub open spec fn line_for(
        &self,
        level: LogLevel,
        message: Seq<char>,
        request_id: Option<Seq<char>>,
        context: Option<Seq<char>>,
        timestamp: Seq<char>,
    ) -> Option<Seq<char>> {
        if self.logs(level) {
            Some(
                self.entry_for(level, message, request_id, context, timestamp).line(
                    self.config.json_output,
                ),
            )
        } else {
            None
        }
    }

    /// The line to write for an event at the specified level, or `None`
    /// where events of that level are not logged.
    pub fn log(
        &self,
        level: LogLevel,
        message: &str,
        request_id: Option<&str>,
        context: Option<&str>,
        timestamp: &str,
    ) -> (line: Option<String>)
        ensures
            line.deep_view() == self.line_for(
                level,
                message@,
                request_id.deep_view(),
                context.deep_view(),
                timestamp@,
            ),
    {
        if level.as_rank() < self.config.min_level.as_rank() {
            return None;
        }
        let entry = LogEntry {
            service: self.config.service_name.clone(),
            level,
            message: String::from_str(message),
            timestamp: String::from_str(timestamp),
            request_id: match request_id {
                Some(id) => Some(String::from_str(id)),
                None => None,
            },
            context: match context {
                Some(text) => Some(String::from_str(text)),
                None => None,
            },
        };
        let line = if self.config.json_output {
            entry.to_json_line()
        } else {
            entry.to_plain_line()
        };
        Some(line)
    }

    /// The line for a message at trace level.
    pub fn trace(
        &self,
        message: &str,
        request_id: Option<&str>,
        context: Option<&str>,
        timestamp: &str,
    ) -> (line: Option<String>)
        ensures
            line.deep_view() == self.line_for(
                LogLevel::Trace,
                message@,
                request_id.deep_view(),
                context.deep_view(),
                timestamp@,
            ),
    {
        self.log(LogLevel::Trace, message, request_id, context, timestamp)
    }

    /// The line for a message at debug level.
    pub fn debug(
        &self,
        message: &str,
        request_id: Option<&str>,
        context: Option<&str>,
        timestamp: &str,
    ) -> (line: Option<String>)
        ensures
            line.deep_view() == self.line_for(
                LogLevel::Debug,
                message@,
                request_id.deep_view(),
                context.deep_view(),
                timestamp@,
            ),
    {
        self.log(LogLevel::Debug, message, request_id, context, timestamp)
    }

    /// The line for a message at info level.
    pub fn info(
        &self,
        message: &str,
        request_id: Option<&str>,
        context: Option<&str>,
        timestamp: &str,
    ) -> (line: Option<String>)
        ensures
            line.deep_view() == self.line_for(
                LogLevel::Info,
                message@,
                request_id.deep_view(),
                context.deep_view(),
                timestamp@,
            ),
    {
        self.log(LogLevel::Info, message, request_id, context, timestamp)
    }

    /// The line for a message at warn level.
    pub fn warn(
        &self,
        message: &str,
        request_id: Option<&str>,
        context: Option<&str>,
        timestamp: &str,
    ) -> (line: Option<String>)
        ensures
            line.deep_view() == self.line_for(
                LogLevel::Warn,
                message@,
                request_id.deep_view(),
                context.deep_view(),
                timestamp@,
            ),
    {
        self.log(LogLevel::Warn, message, request_id, context, timestamp)
    }

    /// The line for a message at error level.
    pub fn error(
        &self,
        message: &str,
        request_id: Option<&str>,
        context: Option<&str>,
        timestamp: &str,
    ) -> (line: Option<String>)
        ensures
            line.deep_view() == self.line_for(
                LogLevel::Error,
                message@,
                request_id.deep_view(),
                context.deep_view(),
                timestamp@,
            ),
    {
        self.log(LogLevel::Error, message, request_id, context, timestamp)
    }
}

/// The id under which a request is logged: the one it came with, or a
/// fresh one.
pub fn request_id(header: Option<String>, fresh: String) -> (id: String)
    ensures
        id == (match header {
            Some(given) => given,
            None => fresh,
        }),
{
    match header {
        Some(given) => given,
        None => fresh,
    }
}

} // verus!
