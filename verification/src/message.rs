//! Lines for the user, each bound for standard output or standard error.

use vstd::prelude::*;
use vstd::string::StringExecFns;

verus! {

/// The stream on which a line is printed.
#[derive(Clone, Copy, Debug, PartialEq, Eq, Structural)]
pub enum Stream {
    /// Standard output.
    Stdout,
    /// Standard error.
    Stderr,
}

/// One line for the user.
#[derive(Clone, Debug, PartialEq, Eq)]
pub struct Message {
    /// Where the line goes.
    pub stream: Stream,
    /// The line, without the line feed that ends it.
    pub text: String,
}

/// The model of a [`Message`].
pub ghost struct MessageView {
    pub stream: Stream,
    pub text: Seq<char>,
}

impl View for Message {
    type V = MessageView;

    open spec fn view(&self) -> MessageView {
        MessageView { stream: self.stream, text: self.text@ }
    }
}

/// A line for standard output.
pub open spec fn on_stdout(text: Seq<char>) -> MessageView {
    MessageView { stream: Stream::Stdout, text }
}

/// A line for standard error.
pub open spec fn on_stderr(text: Seq<char>) -> MessageView {
    MessageView { stream: Stream::Stderr, text }
}

/// The models of a sequence of messages.
pub open spec fn message_views(v: Seq<Message>) -> Seq<MessageView> {
    Seq::new(v.len(), |i: int| v[i]@)
}

impl Message {
    /// A line for standard output.
    pub fn stdout(text: String) -> (m: Message)
        ensures
            m@ == on_stdout(text@),
    {
        Message { stream: Stream::Stdout, text }
    }

    /// A line for standard error.
    pub fn stderr(text: String) -> (m: Message)
        ensures
            m@ == on_stderr(text@),
    {
        Message { stream: Stream::Stderr, text }
    }
}

/// `a` followed by `b`.
pub fn join2(a: &str, b: &str) -> (s: String)
    ensures
        s@ == a@ + b@,
{
    let mut s = String::from_str(a);
    s.append(b);
    s
}

/// `a`, `b` and `c`, one after the other.
pub fn join3(a: &str, b: &str, c: &str) -> (s: String)
    ensures
        s@ == a@ + b@ + c@,
{
    let mut s = String::from_str(a);
    s.append(b);
    s.append(c);
    s
}

/// A list of one message.
pub fn one_message(m: Message) -> (list: Vec<Message>)
    ensures
        message_views(list@) == seq![m@],
{
    let mut list: Vec<Message> = Vec::new();
    list.push(m);
    assert(message_views(list@) =~= seq![m@]);
    list
}

/// A list of two messages, `first` before `second`.
pub fn two_messages(first: Message, second: Message) -> (list: Vec<Message>)
    ensures
        message_views(list@) == seq![first@, second@],
{
    let mut list: Vec<Message> = Vec::new();
    list.push(first);
    list.push(second);
    assert(message_views(list@) =~= seq![first@, second@]);
    list
}

/// Adds `m` at the end of `list`.
pub fn push_message(list: &mut Vec<Message>, m: Message)
    ensures
        message_views(final(list)@) == message_views(old(list)@).push(m@),
{
    list.push(m);
    assert(message_views(list@) =~= message_views(old(list)@).push(m@));
}

} // verus!
