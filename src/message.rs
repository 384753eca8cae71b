//! What the tool prints: lines bound for standard output or standard error.
use vstd::prelude::*;

verus! {

/// The stream a message is printed to.
#[derive(PartialEq, Eq, Structural, Clone, Copy, Debug)]
pub enum Stream {
    Stdout,
    Stderr,
}

/// One printed message; the printer ends it with a line feed.
#[derive(Clone, Debug, PartialEq, Eq)]
pub struct Message {
    pub stream: Stream,
    pub text: String,
}

/// The model of a [`Message`].
pub struct MessageView {
    pub stream: Stream,
    pub text: Seq<char>,
}

impl View for Message {
    type V = MessageView;

    open spec fn view(&self) -> MessageView {
        MessageView { stream: self.stream, text: self.text@ }
    }
}

/// The model of each message of `v`.
pub open spec fn messages_view(v: Seq<Message>) -> Seq<MessageView> {
    v.map_values(|m: Message| m@)
}

/// A message on standard output.
pub open spec fn out_line(text: Seq<char>) -> MessageView {
    MessageView { stream: Stream::Stdout, text }
}

/// A message on standard error.
pub open spec fn err_line(text: Seq<char>) -> MessageView {
    MessageView { stream: Stream::Stderr, text }
}

/// A message with `text` on `stream`.
pub fn message(stream: Stream, text: String) -> (r: Message)
    ensures
        r@ == (MessageView { stream, text: text@ }),
{
    Message { stream, text }
}

/// A list that holds `m` alone.
pub fn single(m: Message) -> (r: Vec<Message>)
    ensures
        messages_view(r@) == seq![m@],
{
    let mut r: Vec<Message> = Vec::new();
    r.push(m);
    assert(messages_view(r@) =~= seq![m@]);
    r
}

} // verus!
