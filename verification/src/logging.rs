//! Logging decisions for `dnet` transports.
//!
//! A [`Logger`] decides whether an event is logged and what the log record says;
//! the records it returns are handed to a tracing backend by the caller.
use vstd::prelude::*;

use crate::transport::Poll;

verus! {

/// Severity of a log record.
#[derive(Debug, Clone, Copy, PartialEq, Eq, Structural)]
pub enum Level {
    /// Very detailed diagnostics.
    Trace,
    /// Debugging information.
    Debug,
    /// Noteworthy events.
    Info,
    /// Suspicious events.
    Warn,
    /// Failures.
    Error,
}

/// Mathematical content of a [`LogRecord`].
pub struct LogEntry {
    /// Severity.
    pub level: Level,
    /// Kind of the transport that logged the record.
    pub kind: Seq<char>,
    /// Name of the transport that logged the record, if it has one.
    pub name: Option<Seq<char>>,
    /// Type of the message the record is about, if any.
    pub message_type: Option<Seq<char>>,
    /// Size of the message the record is about, if known.
    pub size_in_bytes: Option<usize>,
    /// Human readable text.
    pub text: Seq<char>,
}

/// A log record produced by a [`Logger`], to be emitted inside the transport's span.
#[derive(Debug)]
pub struct LogRecord {
    /// Severity.
    pub level: Level,
    /// Kind of the transport that logged the record (span field `transport`).
    pub kind: String,
    /// Name of the transport (span field `name`).
    pub name: Option<String>,
    /// Type of the message the record is about (event field `message_type`).
    pub message_type: Option<String>,
    /// Size of the message in bytes (event field `size_in_bytes`).
    pub size_in_bytes: Option<usize>,
    /// Human readable text.
    pub text: String,
}

/// Optional string as an optional sequence of characters.
pub open spec fn opt_str(o: Option<String>) -> Option<Seq<char>> {
    match o {
        Some(s) => Some(s@),
        None => None,
    }
}

impl View for LogRecord {
    type V = LogEntry;

    open spec fn view(&self) -> LogEntry {
        LogEntry {
            level: self.level,
            kind: self.kind@,
            name: opt_str(self.name),
            message_type: opt_str(self.message_type),
            size_in_bytes: self.size_in_bytes,
            text: self.text@,
        }
    }
}

/// Fields of the span a transport logs in.
#[derive(Debug)]
pub struct SpanFields {
    /// Level of the span.
    pub level: Level,
    /// Name of the span.
    pub title: &'static str,
    /// Kind of the transport (field `transport`).
    pub kind: String,
    /// Name of the transport (field `name`), if it has one.
    pub name: Option<String>,
}

/// Mathematical content of a [`Logger`].
pub struct LoggerView {
    /// Kind of the transport.
    pub kind: Seq<char>,
    /// Name of the transport, if any.
    pub name: Option<Seq<char>>,
    /// Whether logging is enabled.
    pub enabled: bool,
}

/// Logging utility for `dnet` transports.
#[derive(Debug)]
pub struct Logger {
    kind: String,
    name: Option<String>,
    enabled: bool,
}

impl View for Logger {
    type V = LoggerView;

    closed spec fn view(&self) -> LoggerView {
        LoggerView { kind: self.kind@, name: opt_str(self.name), enabled: self.enabled }
    }
}

/// `text` is what `to_string` may return for `value`, by its `Display` implementation.
pub open spec fn displays<F: core::fmt::Display + ?Sized>(value: &F, text: Seq<char>) -> bool {
    exists|s: String| vstd::string::to_string_from_display_ensures::<F>(value, s) && s@ == text
}

/// `out` is what a logger in state `logger` returns for an event of the given level and text:
/// nothing when logging is disabled, otherwise a record in the logger's span.
pub open spec fn emits(
    logger: LoggerView,
    out: Option<LogRecord>,
    level: Level,
    text: Seq<char>,
    message_type: Option<Seq<char>>,
    size: Option<usize>,
) -> bool {
    if logger.enabled {
        &&& out is Some
        &&& out->0@.level == level
        &&& out->0@.kind == logger.kind
        &&& out->0@.name == logger.name
        &&& out->0@.text == text
        &&& out->0@.message_type == message_type
        &&& out->0@.size_in_bytes == size
    } else {
        out is None
    }
}

/// `out` is what a logger in state `logger` returns for a failure whose error displays as some
/// text: nothing when logging is disabled, otherwise an error record whose text is `prefix`
/// followed by the error's text.
pub open spec fn emits_failure<F: core::fmt::Display + ?Sized>(
    logger: LoggerView,
    out: Option<LogRecord>,
    prefix: Seq<char>,
    error: &F,
) -> bool {
    if logger.enabled {
        exists|t: Seq<char>| displays(error, t) && emits(logger, out, Level::Error, prefix + t, None, None)
    } else {
        out is None
    }
}

/// A failure whose error is a plain string is logged with exactly that string after the prefix.
pub proof fn lemma_emits_failure_str(logger: LoggerView, out: Option<LogRecord>, prefix: Seq<char>, error: &str)
    requires
        emits_failure(logger, out, prefix, error),
    ensures
        emits(logger, out, Level::Error, prefix + error@, None, None),
{
    if logger.enabled {
        let t = choose|t: Seq<char>| displays(error, t) && emits(logger, out, Level::Error, prefix + t, None, None);
        let s = choose|s: String| vstd::string::to_string_from_display_ensures::<str>(error, s) && s@ == t;
        assert(t == error@);
    }
}

fn clone_name(name: &Option<String>) -> (r: Option<String>)
    ensures
        opt_str(r) == opt_str(*name),
{
    match name {
        Some(s) => Some(s.clone()),
        None => None,
    }
}

fn render<F: core::fmt::Display + ?Sized>(error: &F) -> (s: String)
    ensures
        displays(error, s@),
{
    let s = error.to_string();
    s
}


/// Trait implemented by `dnet` transports that support logging.
pub trait Logging {
    /// Short human-readable type of the transport.
    const KIND: &'static str;

    /// Mathematical content of the transport's logger.
    spec fn logger_view(&self) -> LoggerView;

    /// The transport's logger.
    fn logger(&self) -> (l: &Logger)
        ensures
            l@ == self.logger_view(),
    ;

    /// Replace the transport's logger.
    fn set_logger(&mut self, logger: Logger)
        ensures
            final(self).logger_view() == logger@,
    ;

    /// Set transport name (for logging purposes).
    fn set_logging_name(&mut self, name: &str)
        ensures
            final(self).logger_view() == (LoggerView { name: Some(name@), ..old(self).logger_view() }),
    {
        let mut logger = self.logger().duplicate();
        logger.set_transport_name(Some(name.to_owned()));
        self.set_logger(logger);
    }

    /// Get transport name (for logging purposes).
    fn get_logging_name(&mut self) -> (r: Option<String>)
        ensures
            opt_str(r) == old(self).logger_view().name,
            final(self).logger_view() == old(self).logger_view(),
    {
        clone_name(&self.logger().name)
    }

    /// Enable logging for this transport.
    fn enable_logging(&mut self)
        ensures
            final(self).logger_view() == (LoggerView { enabled: true, ..old(self).logger_view() }),
    {
        let mut logger = self.logger().duplicate();
        logger.enable();
        self.set_logger(logger);
    }

    /// Disable logging for this transport.
    fn disable_logging(&mut self)
        ensures
            final(self).logger_view() == (LoggerView { enabled: false, ..old(self).logger_view() }),
    {
        let mut logger = self.logger().duplicate();
        logger.disable();
        self.set_logger(logger);
    }

    /// Is logging enabled for this transport.
    fn is_logging_enabled(&self) -> (r: bool)
        ensures
            r == self.logger_view().enabled,
    {
        self.logger().is_enabled()
    }
}

impl Logger {
    /// Create new logger for transport of type `T`.
    pub fn new<T: Logging>() -> (l: Self)
        ensures
            l@ == (LoggerView { kind: T::KIND@, name: None, enabled: false }),
    {
        Logger { kind: T::KIND.to_owned(), name: None, enabled: false }
    }

    /// Create new logger for a transport of type `T` that already has a name, so that its
    /// logging name starts out as that name. The logging name may still be changed later.
    pub fn new_for_already_named<T: Logging>(transport_name: &str) -> (l: Self)
        ensures
            l@ == (LoggerView { kind: T::KIND@, name: Some(transport_name@), enabled: false }),
    {
        Logger { kind: T::KIND.to_owned(), name: Some(transport_name.to_owned()), enabled: false }
    }

    /// A logger with the same kind, name and state.
    pub fn duplicate(&self) -> (l: Self)
        ensures
            l@ == self@,
    {
        Logger { kind: self.kind.clone(), name: clone_name(&self.name), enabled: self.enabled }
    }

    /// Set transport name for logging purposes.
    pub fn set_transport_name(&mut self, name: Option<String>)
        ensures
            final(self)@ == (LoggerView { name: opt_str(name), ..old(self)@ }),
    {
        self.name = name;
    }

    /// Get transport name for logging purposes.
    pub fn get_transport_name(&self) -> (r: Option<&str>)
        ensures
            match r {
                Some(s) => self@.name == Some(s@),
                None => self@.name is None,
            },
    {
        match &self.name {
            Some(name) => Some(name.as_str()),
            None => None,
        }
    }

    /// Enable logging.
    pub fn enable(&mut self)
        ensures
            final(self)@ == (LoggerView { enabled: true, ..old(self)@ }),
    {
        self.enabled = true;
    }

    /// Disable logging.
    pub fn disable(&mut self)
        ensures
            final(self)@ == (LoggerView { enabled: false, ..old(self)@ }),
    {
        self.enabled = false;
    }

    /// Is logging enabled.
    pub fn is_enabled(&self) -> (r: bool)
        ensures
            r == self@.enabled,
    {
        self.enabled
    }
}


/// Character of a decimal digit.
pub open spec fn digit_char(d: nat) -> char {
    if d == 0 { '0' } else if d == 1 { '1' } else if d == 2 { '2' } else if d == 3 { '3' }
    else if d == 4 { '4' } else if d == 5 { '5' } else if d == 6 { '6' } else if d == 7 { '7' }
    else if d == 8 { '8' } else { '9' }
}

/// Decimal representation of a natural number, without leading zeros.
pub open spec fn decimal(n: nat) -> Seq<char>
    decreases n,
{
    if n < 10 {
        seq![digit_char(n)]
    } else {
        decimal(n / 10) + seq![digit_char(n % 10)]
    }
}

fn digit_str(d: usize) -> (s: &'static str)
    requires
        d < 10,
    ensures
        s@ == seq![digit_char(d as nat)],
{
    proof {
        reveal_strlit("0");
        reveal_strlit("1");
        reveal_strlit("2");
        reveal_strlit("3");
        reveal_strlit("4");
        reveal_strlit("5");
        reveal_strlit("6");
        reveal_strlit("7");
        reveal_strlit("8");
        reveal_strlit("9");
    }
    if d == 0 { "0" } else if d == 1 { "1" } else if d == 2 { "2" } else if d == 3 { "3" }
    else if d == 4 { "4" } else if d == 5 { "5" } else if d == 6 { "6" } else if d == 7 { "7" }
    else if d == 8 { "8" } else { "9" }
}

/// Decimal representation of `n`.
pub fn decimal_string(n: usize) -> (s: String)
    ensures
        s@ == decimal(n as nat),
    decreases n,
{
    if n < 10 {
        digit_str(n).to_owned()
    } else {
        let mut s = decimal_string(n / 10);
        s.append(digit_str(n % 10));
        s
    }
}


impl Logger {
    fn record(&self, level: Level, text: String, message_type: Option<&str>, size: Option<usize>) -> (r: LogRecord)
        ensures
            r@ == (LogEntry {
                level,
                kind: self@.kind,
                name: self@.name,
                message_type: match message_type { Some(t) => Some(t@), None => None },
                size_in_bytes: size,
                text: text@,
            }),
    {
        let message_type = match message_type {
            Some(t) => Some(t.to_owned()),
            None => None,
        };
        LogRecord {
            level,
            kind: self.kind.clone(),
            name: clone_name(&self.name),
            message_type,
            size_in_bytes: size,
            text,
        }
    }

    fn event(&self, level: Level, text: &str, message_type: Option<&str>, size: Option<usize>) -> (r: Option<LogRecord>)
        ensures
            emits(self@, r, level, text@, match message_type { Some(t) => Some(t@), None => None }, size),
    {
        if self.enabled {
            Some(self.record(level, text.to_owned(), message_type, size))
        } else {
            None
        }
    }

    fn failure<F: core::fmt::Display + ?Sized>(&self, prefix: &str, error: &F) -> (r: Option<LogRecord>)
        ensures
            emits_failure(self@, r, prefix@, error),
    {
        if self.enabled {
            let rendered = render(error);
            let mut text = prefix.to_owned();
            text.append(rendered.as_str());
            let r = Some(self.record(Level::Error, text, None, None));
            assert(emits(self@, r, Level::Error, prefix@ + rendered@, None, None));
            r
        } else {
            None
        }
    }

    /// Log that the transport was opened successfully.
    ///
    /// Not all transports emit an "open" event: transports that do not wait for an
    /// explicit open skip calling this.
    pub fn log_open_success(&self) -> (r: Option<LogRecord>)
        ensures
            emits(self@, r, Level::Info, "transport open"@, None, None),
    {
        self.event(Level::Info, "transport open", None, None)
    }

    /// Log that opening the transport failed.
    pub fn log_open_failure<F: core::fmt::Display + ?Sized>(&self, error: &F) -> (r: Option<LogRecord>)
        ensures
            emits_failure(self@, r, "opening transport failed: "@, error),
    {
        self.failure("opening transport failed: ", error)
    }

    /// Log readiness based on result: success is not logged, failure is logged with
    /// [`Logger::log_ready_failure`], a pending result is ignored.
    pub fn log_ready<S, F: core::fmt::Display>(&self, result: &Poll<Result<S, F>>) -> (r: Option<LogRecord>)
        ensures
            *result matches Poll::Ready(Ok(_)) ==> r is None,
            *result matches Poll::Ready(Err(error)) ==> emits_failure(self@, r, "failed to become ready for sending: "@, &error),
            (*result matches Poll::Pending) ==> r is None,
    {
        match result {
            Poll::Ready(Ok(_)) => self.log_ready_success(),
            Poll::Ready(Err(error)) => self.log_ready_failure(error),
            Poll::Pending => None,
        }
    }

    /// Log that the transport is ready for sending messages.
    ///
    /// This does not log anything, to keep the log less verbose.
    pub fn log_ready_success(&self) -> (r: Option<LogRecord>)
        ensures
            r is None,
    {
        None
    }

    /// Log that the transport failed to become ready for sending messages.
    pub fn log_ready_failure<F: core::fmt::Display + ?Sized>(&self, error: &F) -> (r: Option<LogRecord>)
        ensures
            emits_failure(self@, r, "failed to become ready for sending: "@, error),
    {
        self.failure("failed to become ready for sending: ", error)
    }

    /// Log message staging based on result: see [`Logger::log_message_staging_success`] and
    /// [`Logger::log_message_staging_failure`].
    pub fn log_message_staging<S, F: core::fmt::Display>(&self, message_type: &str, result: &Result<S, F>) -> (r: Option<LogRecord>)
        ensures
            result is Ok ==> emits(self@, r, Level::Trace, "staged message for sending"@, Some(message_type@), None),
            *result matches Err(error) ==> emits_failure(self@, r, "failed to stage message for sending: "@, &error),
    {
        match result {
            Ok(_) => self.log_message_staging_success(message_type),
            Err(error) => self.log_message_staging_failure(error),
        }
    }

    /// Log successful staging of an outgoing message (of type `message_type`) for sending.
    pub fn log_message_staging_success(&self, message_type: &str) -> (r: Option<LogRecord>)
        ensures
            emits(self@, r, Level::Trace, "staged message for sending"@, Some(message_type@), None),
    {
        self.event(Level::Trace, "staged message for sending", Some(message_type), None)
    }

    /// Log failure while staging an outgoing message for sending.
    pub fn log_message_staging_failure<F: core::fmt::Display + ?Sized>(&self, error: &F) -> (r: Option<LogRecord>)
        ensures
            emits_failure(self@, r, "failed to stage message for sending: "@, error),
    {
        self.failure("failed to stage message for sending: ", error)
    }

    /// Log message preparation based on result; on success the message size is the growth
    /// of the send buffer.
    pub fn log_message_preparation<S, F: core::fmt::Display>(
        &self,
        message_type: &str,
        send_buffer_len_before: usize,
        send_buffer_len_after: usize,
        result: &Result<S, F>,
    ) -> (r: Option<LogRecord>)
        requires
            result is Ok ==> send_buffer_len_before <= send_buffer_len_after,
        ensures
            result is Ok ==> emits(
                self@,
                r,
                Level::Trace,
                "prepared message for sending"@,
                Some(message_type@),
                Some((send_buffer_len_after - send_buffer_len_before) as usize),
            ),
            *result matches Err(error) ==> emits_failure(self@, r, "failed to prepare message for sending: "@, &error),
    {
        match result {
            Ok(_) => {
                let message_size = send_buffer_len_after - send_buffer_len_before;
                self.log_message_preparation_success(message_type, Some(message_size))
            },
            Err(error) => self.log_message_preparation_failure(error),
        }
    }

    /// Log successful preparation of an outgoing message.
    pub fn log_message_preparation_success(&self, message_type: &str, size: Option<usize>) -> (r: Option<LogRecord>)
        ensures
            emits(self@, r, Level::Trace, "prepared message for sending"@, Some(message_type@), size),
    {
        self.event(Level::Trace, "prepared message for sending", Some(message_type), size)
    }

    /// Log failure while preparing an outgoing message.
    pub fn log_message_preparation_failure<F: core::fmt::Display + ?Sized>(&self, error: &F) -> (r: Option<LogRecord>)
        ensures
            emits_failure(self@, r, "failed to prepare message for sending: "@, error),
    {
        self.failure("failed to prepare message for sending: ", error)
    }

    /// Log message sending based on result.
    pub fn log_sending<F: core::fmt::Display>(&self, message_type: &str, result: &Result<(), F>, size: Option<usize>) -> (r: Option<LogRecord>)
        ensures
            result is Ok ==> emits(self@, r, Level::Debug, "message sent"@, Some(message_type@), size),
            *result matches Err(error) ==> emits_failure(self@, r, "failed to send message: "@, &error),
    {
        match result {
            Ok(_) => self.log_sending_success(message_type, size),
            Err(error) => self.log_sending_failure(error),
        }
    }

    /// Log that a message was sent successfully.
    pub fn log_sending_success(&self, message_type: &str, size: Option<usize>) -> (r: Option<LogRecord>)
        ensures
            emits(self@, r, Level::Debug, "message sent"@, Some(message_type@), size),
    {
        self.event(Level::Debug, "message sent", Some(message_type), size)
    }

    /// Log that sending a message failed.
    pub fn log_sending_failure<F: core::fmt::Display + ?Sized>(&self, error: &F) -> (r: Option<LogRecord>)
        ensures
            emits_failure(self@, r, "failed to send message: "@, error),
    {
        self.failure("failed to send message: ", error)
    }

    /// Log that message data arrived, before it is known whether it decodes.
    pub fn log_message_arrived_unknown(&self, size: Option<usize>) -> (r: Option<LogRecord>)
        ensures
            emits(self@, r, Level::Trace, "new message arrived"@, None, size),
    {
        self.event(Level::Trace, "new message arrived", None, size)
    }

    /// Log that a message arrived (was received and enqueued).
    pub fn log_message_arrived_success<I>(&self, message_type: &str, _item: &I, size: Option<usize>) -> (r: Option<LogRecord>)
        ensures
            emits(self@, r, Level::Trace, "new message arrived"@, Some(message_type@), size),
    {
        self.event(Level::Trace, "new message arrived", Some(message_type), size)
    }

    /// Log failure during background arrival of a received message.
    pub fn log_message_arrived_failure<F: core::fmt::Display + ?Sized>(&self, error: &F) -> (r: Option<LogRecord>)
        ensures
            emits_failure(self@, r, "failed to process arriving message: "@, error),
    {
        self.failure("failed to process arriving message: ", error)
    }

    /// Log receiving based on result: a message, a failure, or the remote side closing.
    pub fn log_receiving<I, F: core::fmt::Display>(
        &self,
        message_type: &str,
        result: &Poll<Option<Result<I, F>>>,
        message_length: Option<usize>,
    ) -> (r: Option<LogRecord>)
        ensures
            *result matches Poll::Ready(Some(Ok(_))) ==> emits(self@, r, Level::Debug, "received message"@, Some(message_type@), message_length),
            *result matches Poll::Ready(Some(Err(error))) ==> emits_failure(self@, r, "failed to receive message: "@, &error),
            *result matches Poll::Ready(None) ==> emits(self@, r, Level::Info, "remote transport closed"@, None, None),
            (*result matches Poll::Pending) ==> r is None,
    {
        match result {
            Poll::Ready(Some(Ok(item))) => self.log_receiving_success(message_type, item, message_length),
            Poll::Ready(Some(Err(error))) => self.log_receiving_failure(error),
            Poll::Ready(None) => self.log_remote_closed(),
            Poll::Pending => None,
        }
    }

    /// Log that a message was successfully received.
    pub fn log_receiving_success<I>(&self, message_type: &str, _item: &I, size: Option<usize>) -> (r: Option<LogRecord>)
        ensures
            emits(self@, r, Level::Debug, "received message"@, Some(message_type@), size),
    {
        self.event(Level::Debug, "received message", Some(message_type), size)
    }

    /// Log that receiving a message failed.
    pub fn log_receiving_failure<F: core::fmt::Display + ?Sized>(&self, error: &F) -> (r: Option<LogRecord>)
        ensures
            emits_failure(self@, r, "failed to receive message: "@, error),
    {
        self.failure("failed to receive message: ", error)
    }

    /// Log that an attempt to receive from a `Void` transport was made.
    pub fn log_receive_from_void(&self) -> (r: Option<LogRecord>)
        ensures
            emits(self@, r, Level::Warn, "attempted to receive from void"@, None, None),
    {
        self.event(Level::Warn, "attempted to receive from void", None, None)
    }

    /// Log flushing based on result.
    pub fn log_flush<S, F: core::fmt::Display>(&self, result: &Poll<Result<S, F>>) -> (r: Option<LogRecord>)
        ensures
            *result matches Poll::Ready(Ok(_)) ==> emits(self@, r, Level::Debug, "outgoing messages flushed"@, None, None),
            *result matches Poll::Ready(Err(error)) ==> emits_failure(self@, r, "failed to flush outgoing messages: "@, &error),
            (*result matches Poll::Pending) ==> r is None,
    {
        match result {
            Poll::Ready(Ok(_)) => self.log_flush_success(),
            Poll::Ready(Err(error)) => self.log_flush_failure(error),
            Poll::Pending => None,
        }
    }

    /// Log that buffered messages were flushed successfully.
    pub fn log_flush_success(&self) -> (r: Option<LogRecord>)
        ensures
            emits(self@, r, Level::Debug, "outgoing messages flushed"@, None, None),
    {
        self.event(Level::Debug, "outgoing messages flushed", None, None)
    }

    /// Log that flushing buffered messages failed.
    pub fn log_flush_failure<F: core::fmt::Display + ?Sized>(&self, error: &F) -> (r: Option<LogRecord>)
        ensures
            emits_failure(self@, r, "failed to flush outgoing messages: "@, error),
    {
        self.failure("failed to flush outgoing messages: ", error)
    }

    /// Log closing of the transport based on result.
    pub fn log_close<S, F: core::fmt::Display>(&self, result: &Poll<Result<S, F>>) -> (r: Option<LogRecord>)
        ensures
            *result matches Poll::Ready(Ok(_)) ==> emits(self@, r, Level::Info, "transport closed"@, None, None),
            *result matches Poll::Ready(Err(error)) ==> emits_failure(self@, r, "failed to close transport: "@, &error),
            (*result matches Poll::Pending) ==> r is None,
    {
        match result {
            Poll::Ready(Ok(_)) => self.log_closed_success(),
            Poll::Ready(Err(error)) => self.log_closed_failure(error),
            Poll::Pending => None,
        }
    }

    /// Log that the transport was closed locally successfully.
    pub fn log_closed_success(&self) -> (r: Option<LogRecord>)
        ensures
            emits(self@, r, Level::Info, "transport closed"@, None, None),
    {
        self.event(Level::Info, "transport closed", None, None)
    }

    /// Log that closing the transport locally failed.
    pub fn log_closed_failure<F: core::fmt::Display + ?Sized>(&self, error: &F) -> (r: Option<LogRecord>)
        ensures
            emits_failure(self@, r, "failed to close transport: "@, error),
    {
        self.failure("failed to close transport: ", error)
    }

    /// Log that the remote peer closed the transport.
    pub fn log_remote_closed(&self) -> (r: Option<LogRecord>)
        ensures
            emits(self@, r, Level::Info, "remote transport closed"@, None, None),
    {
        self.event(Level::Info, "remote transport closed", None, None)
    }

    /// Log that an incoming message was filtered out.
    pub fn log_incoming_filtered_out(&self, message_type: &str) -> (r: Option<LogRecord>)
        ensures
            emits(self@, r, Level::Trace, "incoming message filtered out"@, Some(message_type@), None),
    {
        self.event(Level::Trace, "incoming message filtered out", Some(message_type), None)
    }

    /// Log that an outgoing message was filtered out.
    pub fn log_outgoing_filtered_out(&self, message_type: &str) -> (r: Option<LogRecord>)
        ensures
            emits(self@, r, Level::Trace, "outgoing message filtered out"@, Some(message_type@), None),
    {
        self.event(Level::Trace, "outgoing message filtered out", Some(message_type), None)
    }

    /// Override existing logger kind with another transport type's kind.
    pub fn override_kind<T: Logging>(&mut self)
        ensures
            final(self)@ == (LoggerView { kind: T::KIND@, ..old(self)@ }),
    {
        self.kind = T::KIND.to_owned();
    }

    /// Override existing logger kind with provided string.
    pub fn override_kind_with_str(&mut self, kind: &str)
        ensures
            final(self)@ == (LoggerView { kind: kind@, ..old(self)@ }),
    {
        self.kind = kind.to_owned();
    }

    /// Override existing logger kind with another (buffered) transport type's kind.
    pub fn override_kind_buffered<T: Logging>(&mut self)
        ensures
            final(self)@ == (LoggerView { kind: T::KIND@ + "(buffered)"@, ..old(self)@ }),
    {
        let mut kind = T::KIND.to_owned();
        kind.append("(buffered)");
        self.kind = kind;
    }

    /// Override existing logger kind with another (part) transport type's kind, followed by
    /// the part's variant number in parentheses.
    pub fn override_kind_part<T: Logging>(&mut self, variant: usize)
        ensures
            final(self)@ == (LoggerView { kind: T::KIND@ + "("@ + decimal(variant as nat) + ")"@, ..old(self)@ }),
    {
        let mut kind = T::KIND.to_owned();
        kind.append("(");
        let number = decimal_string(variant);
        kind.append(number.as_str());
        kind.append(")");
        self.kind = kind;
    }

    /// Fields of the tracing span for this transport.
    pub fn span(&self) -> (r: SpanFields)
        ensures
            r.level == Level::Trace,
            r.title@ == "dnet"@,
            r.kind@ == self@.kind,
            opt_str(r.name) == self@.name,
    {
        SpanFields { level: Level::Trace, title: "dnet", kind: self.kind.clone(), name: clone_name(&self.name) }
    }
}
/// Enable logging of two connected transports and name them `left` and `right`.
pub fn init_logging<L: Logging, R: Logging>(left: &mut L, right: &mut R)
    ensures
        final(left).logger_view() == (LoggerView { name: Some("left"@), enabled: true, ..old(left).logger_view() }),
        final(right).logger_view() == (LoggerView { name: Some("right"@), enabled: true, ..old(right).logger_view() }),
{
    left.enable_logging();
    left.set_logging_name("left");
    right.enable_logging();
    right.set_logging_name("right");
}

} // verus!
