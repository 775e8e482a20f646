use vstd::prelude::*;
use vstd::string::*;

verus! {

/// Whether a tool call failed on its arguments or on the way to the
/// clipboard.
#[derive(Clone, Copy, PartialEq, Eq, Debug, Structural)]
pub enum ErrorKind {
    InvalidParams,
    Internal,
}

/// The error a tool call is answered with.
#[derive(Debug)]
pub struct ToolError {
    pub kind: ErrorKind,
    pub message: String,
}

/// The step at which talking to the clipboard went wrong.
#[derive(Clone, Copy, PartialEq, Eq, Debug, Structural)]
pub enum Failure {
    /// The clipboard could not be opened.
    Access,
    /// Reading text failed.
    ReadText,
    /// Reading HTML failed.
    ReadHtml,
    /// Clearing failed.
    Clear,
    /// Writing text failed.
    Write,
    /// The background task that did the work failed.
    Task,
}

/// What the message of a failure at `stage` begins with.
pub open spec fn failure_prefix(stage: Failure) -> Seq<char> {
    match stage {
        Failure::Access => "Failed to access clipboard: "@,
        Failure::ReadText => "Failed to read clipboard: "@,
        Failure::ReadHtml => "Failed to read clipboard HTML: "@,
        Failure::Clear => "Failed to clear clipboard: "@,
        Failure::Write => "Failed to set clipboard: "@,
        Failure::Task => "Task failed: "@,
    }
}

/// The internal error for a failure at `stage`, whose cause reads `detail`.
pub fn internal_failure(stage: Failure, detail: &str) -> (e: ToolError)
    ensures
        e.kind == ErrorKind::Internal,
        e.message@ == failure_prefix(stage) + detail@,
{
    let prefix = match stage {
        Failure::Access => "Failed to access clipboard: ",
        Failure::ReadText => "Failed to read clipboard: ",
        Failure::ReadHtml => "Failed to read clipboard HTML: ",
        Failure::Clear => "Failed to clear clipboard: ",
        Failure::Write => "Failed to set clipboard: ",
        Failure::Task => "Task failed: ",
    };
    let mut message = String::from_str(prefix);
    message.append(detail);
    ToolError { kind: ErrorKind::Internal, message }
}

/// An error of the given kind whose message is exactly `message`.
pub fn tool_error(kind: ErrorKind, message: &str) -> (e: ToolError)
    ensures
        e.kind == kind,
        e.message@ == message@,
{
    ToolError { kind, message: String::from_str(message) }
}

} // verus!
