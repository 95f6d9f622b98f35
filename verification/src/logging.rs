//! Log lines the adapter asks its host to emit.
//!
//! The adapter never writes to a sink itself: each lifecycle step returns the
//! lines to emit, and the embedding hands them to the host engine's logger.

use vstd::prelude::*;
use vstd::string::StringExecFns;

verus! {

/// Severity of a log line; the adapter uses only these two levels.
#[derive(Clone, Copy, Debug, PartialEq, Eq, Structural)]
pub enum LogLevel {
    Info,
    Error,
}

/// One line for the host logger: a severity, the plugin's tag, and the text.
#[derive(Debug)]
pub struct LogLine {
    pub level: LogLevel,
    pub tag: String,
    pub text: String,
}

/// Mathematical image of a [`LogLine`]: the same fields over `Seq<char>`.
pub struct LogLineView {
    pub level: LogLevel,
    pub tag: Seq<char>,
    pub text: Seq<char>,
}

impl View for LogLine {
    type V = LogLineView;

    open spec fn view(&self) -> LogLineView {
        LogLineView { level: self.level, tag: self.tag@, text: self.text@ }
    }
}

impl DeepView for LogLine {
    type V = LogLineView;

    open spec fn deep_view(&self) -> LogLineView {
        self.view()
    }
}

/// An informational line with the given tag and text.
pub open spec fn info_view(tag: Seq<char>, text: Seq<char>) -> LogLineView {
    LogLineView { level: LogLevel::Info, tag, text }
}

/// An error line with the given tag and text.
pub open spec fn error_view(tag: Seq<char>, text: Seq<char>) -> LogLineView {
    LogLineView { level: LogLevel::Error, tag, text }
}

/// Builds an informational line.
pub fn info_line(tag: &str, text: &str) -> (r: LogLine)
    ensures
        r@ == info_view(tag@, text@),
{
    LogLine { level: LogLevel::Info, tag: String::from_str(tag), text: String::from_str(text) }
}

/// Builds an informational line whose text is a fixed context followed by a
/// detail.
pub fn info_line_with_detail(tag: &str, context: &str, detail: &str) -> (r: LogLine)
    ensures
        r@ == info_view(tag@, context@ + detail@),
{
    LogLine {
        level: LogLevel::Info,
        tag: String::from_str(tag),
        text: String::from_str(context).concat(detail),
    }
}

/// Builds an error line whose text is a fixed context followed by a detail.
pub fn error_line_with_detail(tag: &str, context: &str, detail: &str) -> (r: LogLine)
    ensures
        r@ == error_view(tag@, context@ + detail@),
{
    LogLine {
        level: LogLevel::Error,
        tag: String::from_str(tag),
        text: String::from_str(context).concat(detail),
    }
}

} // verus!
