//! The logging interface the library speaks: leveled, line-oriented
//! messages. The library never formats timestamps or color itself; it hands
//! lines and levels to a sink that the surrounding process provides.

use vstd::prelude::*;

verus! {

/// The level of one log line.
#[derive(Clone, Copy, Debug, PartialEq, Eq, Structural)]
pub enum LogLevel {
    Info,
    Warn,
    Error,
}

/// One line destined for the logging sink.
pub struct LogLine {
    pub level: LogLevel,
    pub text: String,
}

/// Mathematical model of a [`LogLine`].
#[verifier::ext_equal]
pub struct LogLineView {
    pub level: LogLevel,
    pub text: Seq<char>,
}

impl View for LogLine {
    type V = LogLineView;

    open spec fn view(&self) -> LogLineView {
        LogLineView { level: self.level, text: self.text@ }
    }
}

impl DeepView for LogLine {
    type V = LogLineView;

    open spec fn deep_view(&self) -> LogLineView {
        self.view()
    }
}

/// The logging collaborator: installs the process-wide subscriber that
/// receives the lines the library produces. Implemented outside the
/// library, where the formatting and terminal color live.
pub trait LoggingService {
    fn init_logging(level_str: &str, use_color: bool) -> Result<(), String>;
}

} // verus!
