use vstd::prelude::*;

verus! {

/// How much a log entry matters.
#[allow(non_camel_case_types)]
#[derive(Debug, Clone, Copy, PartialEq, Eq, Structural)]
pub enum LogSeverity {
    INFO,
    VERBOSE,
    WARN,
    ERROR,
}

/// One log entry: a message, its severity, and when it was written, in
/// milliseconds since the Unix epoch (UTC).
#[derive(Debug, Clone)]
pub struct Log {
    message: String,
    severity: LogSeverity,
    time_millis: i64,
}

impl Log {
    pub closed spec fn spec_message(&self) -> Seq<char> {
        self.message@
    }

    pub closed spec fn spec_severity(&self) -> LogSeverity {
        self.severity
    }

    pub closed spec fn spec_time_millis(&self) -> i64 {
        self.time_millis
    }

    pub fn new(message: String, severity: LogSeverity, time_millis: i64) -> (r: Self)
        ensures
            r.spec_message() == message@,
            r.spec_severity() == severity,
            r.spec_time_millis() == time_millis,
    {
        Log { message, severity, time_millis }
    }

    pub fn message(&self) -> (r: &str)
        ensures
            r@ == self.spec_message(),
    {
        self.message.as_str()
    }

    pub fn severity(&self) -> (r: LogSeverity)
        ensures
            r == self.spec_severity(),
    {
        self.severity
    }

    pub fn time_millis(&self) -> (r: i64)
        ensures
            r == self.spec_time_millis(),
    {
        self.time_millis
    }
}

/// The entries logged so far, oldest first.
pub struct Logger {
    logs: Vec<Log>,
}

impl View for Logger {
    type V = Seq<Log>;

    closed spec fn view(&self) -> Seq<Log> {
        self.logs@
    }
}

impl Logger {
    /// A logger that holds no entry.
    pub fn new() -> (r: Self)
        ensures
            r@ == Seq::<Log>::empty(),
    {
        Logger { logs: Vec::new() }
    }

    /// Appends `log` after every entry already held.
    pub fn push(&mut self, log: Log)
        ensures
            final(self)@ == old(self)@.push(log),
    {
        self.logs.push(log);
    }

    /// The number of entries held.
    pub fn len(&self) -> (r: usize)
        ensures
            r == self@.len(),
    {
        self.logs.len()
    }

    /// The entries held, oldest first.
    pub fn logs(&self) -> (r: &[Log])
        ensures
            r@ == self@,
    {
        self.logs.as_slice()
    }
}

} // verus!
