//! The external tools the library plans calls to, and what they hand back.
use crate::text::views;
use vstd::prelude::*;

verus! {

/// The family of the host system, which decides the tools used.
#[derive(PartialEq, Eq, Structural, Clone, Copy, Debug)]
pub enum Platform {
    /// Unix-like hosts: `lsof` lists the sockets, `kill` ends a process.
    Posix,
    /// Windows hosts: `netstat` lists the connections, `taskkill` ends a process.
    Windows,
}

/// A program to run, with its arguments.
#[derive(Clone, Debug, PartialEq, Eq)]
pub struct ToolCall {
    pub program: String,
    pub args: Vec<String>,
}

/// The model of a [`ToolCall`]: the program's name and each argument's text.
pub struct ToolCallView {
    pub program: Seq<char>,
    pub args: Seq<Seq<char>>,
}

impl View for ToolCall {
    type V = ToolCallView;

    open spec fn view(&self) -> ToolCallView {
        ToolCallView { program: self.program@, args: views(self.args@) }
    }
}

/// What a finished tool run handed back: whether it exited with success, and
/// the bytes it wrote to its two streams.
#[derive(Clone, Debug, PartialEq, Eq)]
pub struct ToolOutput {
    pub success: bool,
    pub stdout: Vec<u8>,
    pub stderr: Vec<u8>,
}

/// The text that `String::from_utf8_lossy` makes of the bytes `b`.
pub uninterp spec fn lossy_text(b: Seq<u8>) -> Seq<char>;

/// Relies on `String::from_utf8_lossy`: the bytes read as UTF-8, each invalid
/// sequence replaced by U+FFFD; the text depends on the bytes alone.
#[verifier::external_body]
pub(crate) fn decode_lossy(b: &Vec<u8>) -> (r: String)
    ensures
        r@ == lossy_text(b@),
{
    String::from_utf8_lossy(b).into_owned()
}

/// A call of `program` with `args`.
pub fn tool_call(program: &str, args: Vec<String>) -> (r: ToolCall)
    ensures
        r@.program == program@,
        r@.args == views(args@),
{
    ToolCall { program: String::from_str(program), args }
}

} // verus!
